//! The startup barrier of Litestream replication: HTTP may start only after
//! a nonzero local transaction has reached the replica. The barrier retries
//! failed syncs until its deadline; elapsed time never grants readiness.
use vstd::prelude::*;

use crate::startup::text_or;
use crate::text::{decimal, parse_u64, parse_unsigned, push_decimal, trim, trimmed};

verus! {

/// The pause between two sync tries, in milliseconds.
pub const RETRY_PAUSE_MS: u64 = 200;

/// The time limit that each sync command is given, in seconds.
pub const SYNC_TIMEOUT_SECS: u64 = 5;

/// Why the barrier did not pass.
pub enum BarrierError {
    /// `LITESTREAM_SOCKET` is set to an empty value.
    EmptySocket,
    /// `LITESTREAM_STARTUP_TIMEOUT_SECONDS` is not a `u64`.
    InvalidTimeout,
    /// `LITESTREAM_STARTUP_TIMEOUT_SECONDS` is zero.
    NonPositiveTimeout,
    /// The sync command could not be run.
    CommandFailed,
    /// The sync command's output is not a sync result.
    InvalidResponse,
    /// The deadline passed before a sync completed.
    DeadlineExceeded { seconds: u64, last_error: String },
}

pub open spec fn barrier_error_text(e: BarrierError) -> Seq<char> {
    match e {
        BarrierError::EmptySocket => "LITESTREAM_SOCKET must not be empty"@,
        BarrierError::InvalidTimeout => "invalid LITESTREAM_STARTUP_TIMEOUT_SECONDS"@,
        BarrierError::NonPositiveTimeout => "LITESTREAM_STARTUP_TIMEOUT_SECONDS must be positive"@,
        BarrierError::CommandFailed => "run litestream sync"@,
        BarrierError::InvalidResponse => "invalid litestream sync response"@,
        BarrierError::DeadlineExceeded { seconds, last_error } => "Litestream startup sync exceeded "@
            + decimal(seconds as nat) + "s: "@ + last_error@,
    }
}

impl BarrierError {
    /// The message that explains the error.
    pub fn message(&self) -> (res: String)
        ensures
            res@ == barrier_error_text(*self),
    {
        match self {
            BarrierError::EmptySocket => String::from_str("LITESTREAM_SOCKET must not be empty"),
            BarrierError::InvalidTimeout => String::from_str("invalid LITESTREAM_STARTUP_TIMEOUT_SECONDS"),
            BarrierError::NonPositiveTimeout => String::from_str(
                "LITESTREAM_STARTUP_TIMEOUT_SECONDS must be positive",
            ),
            BarrierError::CommandFailed => String::from_str("run litestream sync"),
            BarrierError::InvalidResponse => String::from_str("invalid litestream sync response"),
            BarrierError::DeadlineExceeded { seconds, last_error } => {
                let mut text = String::from_str("Litestream startup sync exceeded ");
                push_decimal(&mut text, *seconds);
                text.append("s: ");
                text.append(last_error.as_str());
                text
            },
        }
    }
}

/// A sync has reached the replica when a nonzero local transaction is there.
pub open spec fn sync_complete(txid: u64, replica_txid: u64) -> bool {
    txid > 0 && replica_txid >= txid
}

pub open spec fn incomplete_text(txid: u64, replica_txid: u64) -> Seq<char> {
    "incomplete sync: local txid "@ + decimal(txid as nat) + ", replica txid "@ + decimal(replica_txid as nat)
}

/// Where the barrier stands.
#[derive(Clone, Copy, PartialEq, Eq, Structural)]
pub enum BarrierPhase {
    /// A sync command runs.
    Syncing,
    /// Waiting before the next try.
    Waiting,
    /// The barrier has decided.
    Done,
}

/// What the driver observed.
pub enum BarrierEvent {
    /// The stop signal fired (it is checked first).
    ShutdownRequested,
    /// The deadline passed.
    DeadlineReached,
    /// The sync command could not be run.
    CommandError,
    /// The sync command succeeded, but its output is not a sync result.
    InvalidResponse,
    /// The sync command succeeded with these transaction IDs.
    SyncReported { txid: u64, replica_txid: u64 },
    /// The sync command failed; `stderr` is its error output as text.
    SyncFailed { stderr: String },
    /// The pause before the next try is over.
    RetryElapsed,
}

/// What the driver does next.
pub enum BarrierNext {
    /// Run `litestream sync -wait -json`, with `SYNC_TIMEOUT_SECS` as its
    /// own time limit, once more.
    RunSync,
    /// Pause `RETRY_PAUSE_MS` before the next try.
    WaitRetry,
    /// The barrier is done: `Ok` lets startup go on (also when stopping).
    Done(Result<(), BarrierError>),
    /// The event does not apply to the current phase; nothing changes.
    Unchanged,
}

/// The barrier's state.
pub struct SyncBarrier {
    pub phase: BarrierPhase,
    pub timeout_secs: u64,
    pub last_error: String,
}

impl SyncBarrier {
    /// The barrier that the settings ask for. `socket_empty` is `None` when
    /// `LITESTREAM_SOCKET` is unset, else whether it is empty; `timeout` is
    /// `LITESTREAM_STARTUP_TIMEOUT_SECONDS`, `60` when unset.
    /// `Ok(None)` without a socket (no barrier),
    /// else one with the timeout in seconds, its first sync to be run and
    /// "no sync completed" as the last error so far.
    pub fn configure(socket_empty: Option<bool>, timeout: Option<String>) -> (res: Result<Option<SyncBarrier>, BarrierError>)
        ensures
            match socket_empty {
                None => res matches Ok(None),
                Some(true) => res matches Err(BarrierError::EmptySocket),
                Some(false) => match parse_unsigned(text_or(timeout, "60"@), u64::MAX as nat) {
                    None => res matches Err(BarrierError::InvalidTimeout),
                    Some(t) => if t == 0 {
                        res matches Err(BarrierError::NonPositiveTimeout)
                    } else {
                        res matches Ok(Some(b)) && b.phase == BarrierPhase::Syncing && b.timeout_secs == t
                            && b.last_error@ == "no sync completed"@
                    },
                },
            },
    {
        match socket_empty {
            None => return Ok(None),
            Some(true) => return Err(BarrierError::EmptySocket),
            Some(false) => {},
        }
        let text = match timeout {
            Some(t) => t,
            None => String::from_str("60"),
        };
        let seconds: u64 = match parse_u64(text.as_str()) {
            Some(v) => v,
            None => return Err(BarrierError::InvalidTimeout),
        };
        if seconds == 0 {
            return Err(BarrierError::NonPositiveTimeout);
        }
        Ok(Some(SyncBarrier {
            phase: BarrierPhase::Syncing,
            timeout_secs: seconds,
            last_error: String::from_str("no sync completed"),
        }))
    }

    /// Takes one observation and says what to do next.
    pub fn step(&mut self, event: BarrierEvent) -> (res: BarrierNext)
        ensures
            old(self).phase == BarrierPhase::Done ==> (res is Unchanged && *final(self) == *old(self)),
            old(self).phase != BarrierPhase::Done ==> match event {
                BarrierEvent::ShutdownRequested => res matches BarrierNext::Done(Ok(())) && final(self).phase
                    == BarrierPhase::Done,
                BarrierEvent::DeadlineReached => res matches BarrierNext::Done(
                    Err(BarrierError::DeadlineExceeded { seconds, last_error }),
                ) && seconds == old(self).timeout_secs && last_error@ == old(self).last_error@
                    && final(self).phase == BarrierPhase::Done,
                BarrierEvent::RetryElapsed => if old(self).phase == BarrierPhase::Waiting {
                    res matches BarrierNext::RunSync && final(self).phase == BarrierPhase::Syncing
                        && final(self).last_error@ == old(self).last_error@
                } else {
                    res matches BarrierNext::Unchanged && *final(self) == *old(self)
                },
                _ => if old(self).phase == BarrierPhase::Waiting {
                    res matches BarrierNext::Unchanged && *final(self) == *old(self)
                } else {
                    match event {
                        BarrierEvent::CommandError => res matches BarrierNext::Done(
                            Err(BarrierError::CommandFailed),
                        ) && final(self).phase == BarrierPhase::Done,
                        BarrierEvent::InvalidResponse => res matches BarrierNext::Done(
                            Err(BarrierError::InvalidResponse),
                        ) && final(self).phase == BarrierPhase::Done,
                        BarrierEvent::SyncReported { txid, replica_txid } => if sync_complete(
                            txid,
                            replica_txid,
                        ) {
                            res matches BarrierNext::Done(Ok(())) && final(self).phase == BarrierPhase::Done
                        } else {
                            res matches BarrierNext::WaitRetry && final(self).phase == BarrierPhase::Waiting
                                && final(self).last_error@ == incomplete_text(txid, replica_txid)
                        },
                        BarrierEvent::SyncFailed { stderr } => res matches BarrierNext::WaitRetry
                            && final(self).phase == BarrierPhase::Waiting && final(self).last_error@
                            == trimmed(stderr@),
                        _ => true,
                    }
                },
            },
            final(self).timeout_secs == old(self).timeout_secs,
            res matches BarrierNext::Done(Ok(())) ==> event is ShutdownRequested || (
            event matches BarrierEvent::SyncReported { txid, replica_txid } && sync_complete(txid, replica_txid)),
            old(self).phase != BarrierPhase::Done && event is DeadlineReached ==> (res matches BarrierNext::Done(Err(_))),
    {
        if self.phase == BarrierPhase::Done {
            return BarrierNext::Unchanged;
        }
        match event {
            BarrierEvent::ShutdownRequested => {
                self.phase = BarrierPhase::Done;
                BarrierNext::Done(Ok(()))
            },
            BarrierEvent::DeadlineReached => {
                self.phase = BarrierPhase::Done;
                let last_error = String::from_str(self.last_error.as_str());
                BarrierNext::Done(Err(BarrierError::DeadlineExceeded { seconds: self.timeout_secs, last_error }))
            },
            BarrierEvent::RetryElapsed => {
                if self.phase == BarrierPhase::Waiting {
                    self.phase = BarrierPhase::Syncing;
                    BarrierNext::RunSync
                } else {
                    BarrierNext::Unchanged
                }
            },
            BarrierEvent::CommandError => {
                if self.phase == BarrierPhase::Waiting {
                    return BarrierNext::Unchanged;
                }
                self.phase = BarrierPhase::Done;
                BarrierNext::Done(Err(BarrierError::CommandFailed))
            },
            BarrierEvent::InvalidResponse => {
                if self.phase == BarrierPhase::Waiting {
                    return BarrierNext::Unchanged;
                }
                self.phase = BarrierPhase::Done;
                BarrierNext::Done(Err(BarrierError::InvalidResponse))
            },
            BarrierEvent::SyncReported { txid, replica_txid } => {
                if self.phase == BarrierPhase::Waiting {
                    return BarrierNext::Unchanged;
                }
                if txid > 0 && replica_txid >= txid {
                    self.phase = BarrierPhase::Done;
                    BarrierNext::Done(Ok(()))
                } else {
                    let mut text = String::from_str("incomplete sync: local txid ");
                    push_decimal(&mut text, txid);
                    text.append(", replica txid ");
                    push_decimal(&mut text, replica_txid);
                    self.last_error = text;
                    self.phase = BarrierPhase::Waiting;
                    BarrierNext::WaitRetry
                }
            },
            BarrierEvent::SyncFailed { stderr } => {
                if self.phase == BarrierPhase::Waiting {
                    return BarrierNext::Unchanged;
                }
                self.last_error = trim(stderr.as_str());
                self.phase = BarrierPhase::Waiting;
                BarrierNext::WaitRetry
            },
        }
    }
}

} // verus!
