//! The contention lab: how each concurrent write attempt is classified and
//! how a round of attempts is tallied.
use vstd::prelude::*;

use crate::database::WriteError;
use crate::text::{parse_i32, parse_signed};

verus! {

/// How many writes each path starts together.
pub const WRITERS: usize = 12;

/// How long each lab transaction is held, in milliseconds.
pub const HOLD_MS: u64 = 75;

/// The busy timeout of the lab's connections, in milliseconds.
pub const BUSY_TIMEOUT_MS: u64 = 0;

/// How one write attempt ended.
#[derive(Clone, Copy, PartialEq, Eq, Structural, Debug)]
pub enum Outcome {
    Committed,
    Busy,
}

/// What a write attempt returned, as the lab sees it.
pub enum Attempt {
    /// The transaction committed with this counter value.
    Committed(i64),
    /// The database reported an error with this code, if it gave one.
    DatabaseError { code: Option<String> },
    /// Any other error.
    OtherError,
}

/// Whether a database error code is `SQLITE_BUSY` (5), including the
/// extended codes, whose low byte is 5.
pub open spec fn is_busy_code(code: Seq<char>) -> bool {
    match parse_signed(code, i32::MIN as int, i32::MAX as nat) {
        Some(n) => (n as i32) & 0xff == 5,
        None => false,
    }
}

/// The lab's record of an attempt: `Some` of the outcome and the committed
/// value, or `None` when the attempt failed for a reason other than lock
/// contention, which fails the experiment.
pub fn record(attempt: Attempt) -> (res: Option<(Outcome, Option<i64>)>)
    ensures
        match attempt {
            Attempt::Committed(v) => res == Some((Outcome::Committed, Some(v))),
            Attempt::DatabaseError { code: Some(c) } => if is_busy_code(c@) {
                res == Some((Outcome::Busy, None::<i64>))
            } else {
                res is None
            },
            _ => res is None,
        },
{
    match attempt {
        Attempt::Committed(v) => Some((Outcome::Committed, Some(v))),
        Attempt::DatabaseError { code: Some(c) } => match parse_i32(c.as_str()) {
            Some(n) => {
                if n & 0xff == 5 {
                    Some((Outcome::Busy, None))
                } else {
                    None
                }
            },
            None => None,
        },
        _ => None,
    }
}

/// How many of the outcomes are commits.
pub open spec fn committed_count(outcomes: Seq<Outcome>) -> nat
    decreases outcomes.len(),
{
    if outcomes.len() == 0 {
        0
    } else {
        committed_count(outcomes.drop_last()) + if outcomes.last() == Outcome::Committed {
            1nat
        } else {
            0nat
        }
    }
}

/// The counts of a round: committed attempts, and busy ones (all others).
pub fn tally(outcomes: &Vec<Outcome>) -> (res: (usize, usize))
    ensures
        res.0 == committed_count(outcomes@),
        res.1 == outcomes@.len() - committed_count(outcomes@),
        res.0 + res.1 == outcomes@.len(),
{
    let mut committed: usize = 0;
    let mut i: usize = 0;
    while i < outcomes.len()
        invariant
            i <= outcomes@.len(),
            committed == committed_count(outcomes@.take(i as int)),
            committed <= i,
        decreases outcomes@.len() - i,
    {
        assert(outcomes@.take(i + 1).drop_last() =~= outcomes@.take(i as int));
        if outcomes[i] == Outcome::Committed {
            committed = committed + 1;
        }
        i = i + 1;
    }
    assert(outcomes@.take(outcomes@.len() as int) =~= outcomes@);
    (committed, outcomes.len() - committed)
}

/// Why a queued lab write failed the experiment: the queue refused it, its
/// reply was lost, or the writer's own message.
pub fn lab_write_failure(error: WriteError) -> (res: String)
    ensures
        res@ == match error {
            WriteError::Unavailable => "lab write queue unavailable"@,
            WriteError::OutcomeUnknown => "lab write outcome unknown"@,
            WriteError::Database(message) => message@,
        },
{
    match error {
        WriteError::Unavailable => String::from_str("lab write queue unavailable"),
        WriteError::OutcomeUnknown => String::from_str("lab write outcome unknown"),
        WriteError::Database(message) => message,
    }
}

/// Whether the records are ordered by request number.
pub open spec fn ordered_by_request<T>(records: Seq<(usize, T)>) -> bool {
    forall|i: int, j: int| 0 <= i < j < records.len() ==> records[i].0 <= records[j].0
}

/// The records of a round ordered by request number, each record once: the
/// result holds the same records (as a multiset) in ascending request order.
pub fn order_by_request<T>(records: Vec<(usize, T)>) -> (res: Vec<(usize, T)>)
    ensures
        res@.to_multiset() == records@.to_multiset(),
        ordered_by_request(res@),
{
    broadcast use vstd::seq_lib::group_to_multiset_ensures;

    let ghost all = records@;
    let mut rest = records;
    let mut sorted: Vec<(usize, T)> = Vec::new();
    assert(sorted@ =~= Seq::<(usize, T)>::empty());
    while rest.len() > 0
        invariant
            rest@.to_multiset().add(sorted@.to_multiset()) == all.to_multiset(),
            ordered_by_request(sorted@),
        decreases rest@.len(),
    {
        let ghost before = rest@;
        let item = rest.pop().unwrap();
        assert(before =~= rest@.push(item));
        let key: usize = item.0;
        let mut p: usize = 0;
        while p < sorted.len() && sorted[p].0 <= key
            invariant
                p <= sorted@.len(),
                forall|k: int| 0 <= k < p ==> sorted@[k].0 <= key,
            decreases sorted@.len() - p,
        {
            p = p + 1;
        }
        let ghost old_sorted = sorted@;
        sorted.insert(p, item);
        assert forall|i: int, j: int| 0 <= i < j < sorted@.len() implies sorted@[i].0 <= sorted@[j].0 by {
            if p < old_sorted.len() {
                assert(key < old_sorted[p as int].0);
            }
            if j < p {
                assert(sorted@[i] == old_sorted[i] && sorted@[j] == old_sorted[j]);
            } else if j == p {
                assert(sorted@[i] == old_sorted[i]);
            } else if i > p {
                assert(sorted@[i] == old_sorted[i - 1] && sorted@[j] == old_sorted[j - 1]);
            } else if i == p {
                assert(sorted@[j] == old_sorted[j - 1]);
                assert(old_sorted[p as int].0 <= old_sorted[j - 1].0);
            } else {
                assert(sorted@[i] == old_sorted[i] && sorted@[j] == old_sorted[j - 1]);
            }
        }
        proof {
            vstd::seq_lib::to_multiset_insert(old_sorted, p as int, item);
            vstd::seq_lib::to_multiset_build(rest@, item);
        }
        assert(rest@.to_multiset().add(sorted@.to_multiset()) =~= before.to_multiset().add(old_sorted.to_multiset()));
    }
    assert(rest@ =~= Seq::<(usize, T)>::empty());
    assert(rest@.to_multiset() =~= vstd::multiset::Multiset::empty());
    assert(sorted@.to_multiset() =~= all.to_multiset());
    sorted
}

} // verus!
