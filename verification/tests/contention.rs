use sqlite_web_starter::database::WriteError;
use sqlite_web_starter::database::contention::{lab_write_failure, order_by_request, record, tally, Attempt, Outcome, BUSY_TIMEOUT_MS, HOLD_MS, WRITERS};

#[test]
fn busy_codes_are_recorded_and_other_errors_fail() {
    assert_eq!(record(Attempt::DatabaseError { code: Some("5".into()) }), Some((Outcome::Busy, None)));
    // Extended codes keep SQLITE_BUSY in their low byte.
    assert_eq!(record(Attempt::DatabaseError { code: Some("517".into()) }), Some((Outcome::Busy, None)));
    assert_eq!(record(Attempt::DatabaseError { code: Some("261".into()) }), Some((Outcome::Busy, None)));
    // A missing table (SQLITE_ERROR, 1) fails the experiment.
    assert_eq!(record(Attempt::DatabaseError { code: Some("1".into()) }), None);
    assert_eq!(record(Attempt::DatabaseError { code: Some("busy".into()) }), None);
    assert_eq!(record(Attempt::DatabaseError { code: None }), None);
    assert_eq!(record(Attempt::OtherError), None);
    assert_eq!(record(Attempt::Committed(3)), Some((Outcome::Committed, Some(3))));
}

#[test]
fn rounds_are_tallied() {
    assert_eq!(WRITERS, 12);
    assert_eq!(HOLD_MS, 75);
    assert_eq!(BUSY_TIMEOUT_MS, 0);
    let queued = vec![Outcome::Committed; WRITERS];
    assert_eq!(tally(&queued), (WRITERS, 0));
    let mut direct = vec![Outcome::Busy; WRITERS];
    direct[0] = Outcome::Committed;
    direct[5] = Outcome::Committed;
    let (committed, busy) = tally(&direct);
    assert_eq!((committed, busy), (2, 10));
    assert_eq!(committed + busy, WRITERS);
    assert_eq!(tally(&Vec::new()), (0, 0));
}

#[test]
fn lab_write_failures_name_their_cause() {
    assert_eq!(lab_write_failure(WriteError::Unavailable), "lab write queue unavailable");
    assert_eq!(lab_write_failure(WriteError::OutcomeUnknown), "lab write outcome unknown");
    assert_eq!(lab_write_failure(WriteError::Database("no such table: counter".into())), "no such table: counter");
}

#[test]
fn records_come_back_in_request_order() {
    let records = vec![(3usize, "c"), (1, "a"), (12, "l"), (2, "b"), (7, "g")];
    assert_eq!(order_by_request(records), vec![(1, "a"), (2, "b"), (3, "c"), (7, "g"), (12, "l")]);
    assert_eq!(order_by_request(Vec::<(usize, ())>::new()), vec![]);
    let many: Vec<(usize, usize)> = (1..=12).rev().map(|i| (i, i * 10)).collect();
    let ordered = order_by_request(many);
    assert_eq!(ordered.iter().map(|r| r.0).collect::<Vec<_>>(), (1..=12).collect::<Vec<_>>());
    assert!(ordered.iter().all(|(i, v)| *v == i * 10));
}
