//! How outcomes become HTTP answers: status codes and safe messages, with
//! backpressure answered as "retry later" rather than as a server failure.
use vstd::prelude::*;

use crate::database::WriteError;

verus! {

/// An error answer: its status code, its `Retry-After` value if any, and a
/// message that is safe to show to clients.
pub struct ErrorReply {
    pub status: u16,
    pub retry_after: Option<&'static str>,
    pub message: &'static str,
}

/// A failed database read: 500, "database read failed".
pub fn read_error() -> (res: ErrorReply)
    ensures
        res.status == 500,
        res.retry_after is None,
        res.message@ == "database read failed"@,
{
    ErrorReply { status: 500, retry_after: None, message: "database read failed" }
}

pub open spec fn answers_with(status: u16, retry_after: Option<Seq<char>>, message: Seq<char>, reply: ErrorReply) -> bool {
    &&& reply.status == status
    &&& match retry_after {
        None => reply.retry_after is None,
        Some(r) => reply.retry_after is Some && reply.retry_after->0@ == r,
    }
    &&& reply.message@ == message
}

/// The answer that a write error gets.
pub open spec fn write_error_answer(error: WriteError, reply: ErrorReply) -> bool {
    match error {
        WriteError::Unavailable => answers_with(
            429,
            Some("1"@),
            "write queue full; retry after the given delay"@,
            reply,
        ),
        WriteError::OutcomeUnknown => answers_with(
            500,
            None,
            "write outcome unknown; do not retry blindly"@,
            reply,
        ),
        WriteError::Database(_) => answers_with(500, None, "database write failed"@, reply),
    }
}

/// A write that did not commit. A write that was never admitted is
/// backpressure: 429 with `Retry-After: 1`, since the queue drains within
/// milliseconds. A write whose outcome is unknown, or that failed, is 500.
pub fn write_error(error: &WriteError) -> (res: ErrorReply)
    ensures
        write_error_answer(*error, res),
{
    match error {
        WriteError::Unavailable => ErrorReply {
            status: 429,
            retry_after: Some("1"),
            message: "write queue full; retry after the given delay",
        },
        WriteError::OutcomeUnknown => ErrorReply {
            status: 500,
            retry_after: None,
            message: "write outcome unknown; do not retry blindly",
        },
        WriteError::Database(_) => ErrorReply { status: 500, retry_after: None, message: "database write failed" },
    }
}

/// The answer to the counter form: a redirect to `/` after a committed
/// increment, else the write error's answer.
pub fn form_redirect(result: &Result<i64, WriteError>) -> (res: Result<&'static str, ErrorReply>)
    ensures
        match result {
            Ok(_) => res is Ok && res->Ok_0@ == "/"@,
            Err(e) => res is Err && write_error_answer(*e, res->Err_0),
        },
{
    match result {
        Ok(_) => Ok("/"),
        Err(e) => Err(write_error(e)),
    }
}

/// How long a lab run may take before it counts as timed out, in seconds.
pub const CONTENTION_LIMIT_SECS: u64 = 10;

/// How many lab runs may go on at once.
pub const CONTENTION_RUNS_AT_ONCE: usize = 1;

/// How a run of the contention lab went.
#[derive(Clone, Copy, PartialEq, Eq, Structural)]
pub enum ContentionRun {
    /// Another run holds the lab.
    AlreadyRunning,
    /// The run finished with a comparison.
    Completed,
    /// The run failed.
    Failed,
    /// The run did not finish within its time limit.
    TimedOut,
}

/// How a lab request went: `acquired` says whether it got one of the
/// `CONTENTION_RUNS_AT_ONCE` permits; `finished` is `None` when the run did
/// not finish within `CONTENTION_LIMIT_SECS`, else whether it succeeded.
pub fn contention_run(acquired: bool, finished: Option<bool>) -> (res: ContentionRun)
    ensures
        res == if !acquired {
            ContentionRun::AlreadyRunning
        } else {
            match finished {
                None => ContentionRun::TimedOut,
                Some(true) => ContentionRun::Completed,
                Some(false) => ContentionRun::Failed,
            }
        },
{
    if !acquired {
        return ContentionRun::AlreadyRunning;
    }
    match finished {
        None => ContentionRun::TimedOut,
        Some(true) => ContentionRun::Completed,
        Some(false) => ContentionRun::Failed,
    }
}

/// The answer to a lab run: `None` means 200 with the comparison; one run at
/// a time (429 otherwise), 500 when it fails, 504 when it times out.
pub fn contention_reply(run: ContentionRun) -> (res: Option<ErrorReply>)
    ensures
        match run {
            ContentionRun::Completed => res is None,
            ContentionRun::AlreadyRunning => res is Some && answers_with(
                429,
                None,
                "a contention experiment is already running; try again shortly"@,
                res->0,
            ),
            ContentionRun::Failed => res is Some && answers_with(
                500,
                None,
                "contention experiment failed"@,
                res->0,
            ),
            ContentionRun::TimedOut => res is Some && answers_with(
                504,
                None,
                "contention experiment timed out"@,
                res->0,
            ),
        },
{
    match run {
        ContentionRun::Completed => None,
        ContentionRun::AlreadyRunning => Some(
            ErrorReply {
                status: 429,
                retry_after: None,
                message: "a contention experiment is already running; try again shortly",
            },
        ),
        ContentionRun::Failed => Some(
            ErrorReply { status: 500, retry_after: None, message: "contention experiment failed" },
        ),
        ContentionRun::TimedOut => Some(
            ErrorReply { status: 504, retry_after: None, message: "contention experiment timed out" },
        ),
    }
}

/// Readiness: 200 when ready, 503 otherwise.
pub fn ready_status(ready: bool) -> (res: u16)
    ensures
        res == if ready { 200u16 } else { 503u16 },
{
    if ready {
        200
    } else {
        503
    }
}

/// Liveness: always 200, whatever readiness says.
pub fn healthy_status() -> (res: u16)
    ensures
        res == 200,
{
    200
}

/// Backpressure is answered as "retry later", never as a server failure: a
/// write error gets 429 exactly when the write was never admitted, and then
/// with a `Retry-After`; every other write error is a 500 without one.
pub proof fn backpressure_means_retry_later(error: WriteError, reply: ErrorReply)
    requires
        write_error_answer(error, reply),
    ensures
        reply.status == 429 <==> error is Unavailable,
        reply.retry_after is Some <==> error is Unavailable,
        !(error is Unavailable) ==> reply.status == 500,
{
}

} // verus!
