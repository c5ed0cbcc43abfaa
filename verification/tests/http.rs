use sqlite_web_starter::database::{increment, is_ready, WriteError};
use sqlite_web_starter::routes::{
    contention_reply, contention_run, form_redirect, healthy_status, read_error, ready_status, write_error, ContentionRun, CONTENTION_LIMIT_SECS, CONTENTION_RUNS_AT_ONCE,
};

#[test]
fn rejected_writes_are_answered_with_retry_after() {
    let rejected = increment(false, None);
    let reply = write_error(rejected.as_ref().err().unwrap());
    assert_eq!(reply.status, 429);
    assert_eq!(reply.retry_after, Some("1"));
    // The form path answers the same way.
    let reply = form_redirect(&rejected).err().unwrap();
    assert_eq!(reply.status, 429);
    assert_eq!(reply.retry_after, Some("1"));
}

#[test]
fn unknown_and_failed_writes_are_server_errors_without_retry_advice() {
    let reply = write_error(&WriteError::OutcomeUnknown);
    assert_eq!((reply.status, reply.retry_after, reply.message), (500, None, "write outcome unknown; do not retry blindly"));
    let reply = write_error(&WriteError::Database("disk I/O error".into()));
    assert_eq!((reply.status, reply.retry_after, reply.message), (500, None, "database write failed"));
    let reply = read_error();
    assert_eq!((reply.status, reply.message), (500, "database read failed"));
}

#[test]
fn the_form_redirects_home_after_a_commit() {
    assert_eq!(form_redirect(&Ok(1)).ok(), Some("/"));
}

#[test]
fn liveness_is_always_ok() {
    assert_eq!(healthy_status(), 200);
}

#[test]
fn readiness_answer_follows_readiness() {
    assert_eq!(ready_status(is_ready(true, false, true)), 200);
    // stop_readiness lowers the flag.
    assert_eq!(ready_status(is_ready(false, false, true)), 503);
    assert_eq!(healthy_status(), 200);
}

#[test]
fn one_contention_run_at_a_time() {
    assert!(contention_reply(ContentionRun::Completed).is_none());
    let busy = contention_reply(ContentionRun::AlreadyRunning).unwrap();
    assert_eq!((busy.status, busy.message), (429, "a contention experiment is already running; try again shortly"));
    assert_eq!(contention_reply(ContentionRun::Failed).unwrap().status, 500);
    assert_eq!(contention_reply(ContentionRun::TimedOut).unwrap().status, 504);
}

#[test]
fn a_lab_run_is_judged_by_its_permit_and_its_time_limit() {
    assert_eq!(CONTENTION_LIMIT_SECS, 10);
    assert_eq!(CONTENTION_RUNS_AT_ONCE, 1);
    assert!(contention_run(false, Some(true)) == ContentionRun::AlreadyRunning);
    assert!(contention_run(true, None) == ContentionRun::TimedOut);
    assert!(contention_run(true, Some(true)) == ContentionRun::Completed);
    assert!(contention_run(true, Some(false)) == ContentionRun::Failed);
}
