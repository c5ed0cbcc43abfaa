//! The write path: admission of a write into the bounded command queue, the
//! answer a caller gets, readiness, and the single writer that executes the
//! queued commands one at a time and drains them on shutdown.
use vstd::prelude::*;

pub mod contention;

verus! {

/// A row of the sample inventory.
pub struct InventoryItem {
    pub name: String,
    pub quantity: i64,
}

/// Why a write did not report a committed value.
pub enum WriteError {
    /// The queue was full or closed: the write was never admitted.
    Unavailable,
    /// The write was admitted, but its reply was lost: it may have committed.
    OutcomeUnknown,
    /// The writer reported that the write failed.
    Database(String),
}

/// The answer that a caller gets: never admitted is `Unavailable`; admitted
/// with no reply is `OutcomeUnknown`; otherwise the writer's reply.
pub open spec fn write_answer(admitted: bool, reply: Option<Result<i64, String>>) -> Result<i64, WriteError> {
    if !admitted {
        Err(WriteError::Unavailable)
    } else {
        match reply {
            None => Err(WriteError::OutcomeUnknown),
            Some(Ok(v)) => Ok(v),
            Some(Err(m)) => Err(WriteError::Database(m)),
        }
    }
}

/// The answer to a caller of `increment`. `admitted` says whether the queue
/// took the command; `reply` is what came back on the command's reply
/// channel (`None` when the reply was dropped without an answer).
pub fn increment(admitted: bool, reply: Option<Result<i64, String>>) -> (res: Result<i64, WriteError>)
    ensures
        !admitted ==> res matches Err(WriteError::Unavailable),
        admitted ==> match reply {
            None => res matches Err(WriteError::OutcomeUnknown),
            Some(Ok(v)) => res == Ok::<i64, WriteError>(v),
            Some(Err(m)) => res matches Err(WriteError::Database(n)) && n@ == m@,
        },
        res == write_answer(admitted, reply),
{
    if !admitted {
        return Err(WriteError::Unavailable);
    }
    match reply {
        None => Err(WriteError::OutcomeUnknown),
        Some(Ok(v)) => Ok(v),
        Some(Err(m)) => Err(WriteError::Database(m)),
    }
}

/// Readiness: the readiness flag is up, the command queue is open, and the
/// counter can be read.
pub fn is_ready(ready: bool, queue_closed: bool, counter_readable: bool) -> (res: bool)
    ensures
        res == (ready && !queue_closed && counter_readable),
{
    ready && !queue_closed && counter_readable
}

/// Where the writer stands.
#[derive(Clone, Copy, PartialEq, Eq, Structural)]
pub enum WriterPhase {
    /// Taking commands, and watching for shutdown.
    Accepting,
    /// Shutdown was requested: the queue is closed, and the commands it
    /// already holds are still executed.
    Draining,
    /// One command is being executed.
    Executing { draining: bool },
    /// The connection is being closed.
    Closing,
    /// The writer has finished.
    Stopped,
}

/// Why the writer finished with an error.
pub enum WriterFailure<E> {
    /// The queue ended while the writer was still accepting commands.
    ChannelClosedUnexpectedly,
    /// Executing a command failed.
    Database(E),
    /// Closing the connection failed.
    Close(E),
}

impl<E> WriterFailure<E> {
    /// The message of a failure that has no error of its own to report:
    /// `Some` only for an unexpected end of the queue.
    pub fn message(&self) -> (res: Option<&'static str>)
        ensures
            match self {
                WriterFailure::ChannelClosedUnexpectedly => res is Some && res->0@
                    == "writer channel closed unexpectedly"@,
                _ => res is None,
            },
    {
        match self {
            WriterFailure::ChannelClosedUnexpectedly => Some("writer channel closed unexpectedly"),
            _ => None,
        }
    }
}

/// What the writer's driver observed.
pub enum WriterEvent<E> {
    /// The shutdown signal fired (it is checked before the queue).
    ShutdownRequested,
    /// The queue handed over a command.
    Received,
    /// The queue is closed and empty.
    ChannelEnded,
    /// The command's transaction committed with this counter value.
    Committed(i64),
    /// The command's transaction failed.
    Failed { message: String, error: E },
    /// Closing the readers and then the writable connection finished.
    Closed(Result<(), E>),
}

/// What the driver does next.
pub enum WriterNext<E> {
    /// Wait for the next command; also for the shutdown signal when
    /// `watch_shutdown` holds.
    Receive { watch_shutdown: bool },
    /// Execute the received command in one transaction.
    Execute,
    /// Lower readiness, close the queue, close the readers, then close the
    /// writable connection.
    Teardown,
    /// The writer is done, with this result.
    Finish(Result<(), WriterFailure<E>>),
    /// The event does not apply to the current phase; nothing changes.
    Unchanged,
}

/// One step's actions, in order: close the queue, send the reply to the
/// command at hand, then go on as `next` says.
pub struct WriterStep<E> {
    pub close_queue: bool,
    pub reply: Option<Result<i64, String>>,
    pub next: WriterNext<E>,
}

/// The single writer's decisions.
pub struct WriterLoop<E> {
    pub phase: WriterPhase,
    pub failure: Option<WriterFailure<E>>,
}

pub open spec fn writer_step<E>(close_queue: bool, reply: Option<Result<i64, String>>, next: WriterNext<E>) -> WriterStep<E> {
    WriterStep { close_queue, reply, next }
}

impl<E> WriterLoop<E> {
    /// The writer's transition: the state after `event`, and what to do.
    pub open spec fn next(self, event: WriterEvent<E>) -> (WriterLoop<E>, WriterStep<E>) {
        let unchanged = (self, writer_step(false, None, WriterNext::Unchanged));
        match self.phase {
            WriterPhase::Accepting => match event {
                WriterEvent::ShutdownRequested => (
                    WriterLoop { phase: WriterPhase::Draining, failure: self.failure },
                    writer_step(true, None, WriterNext::Receive { watch_shutdown: false }),
                ),
                WriterEvent::Received => (
                    WriterLoop { phase: WriterPhase::Executing { draining: false }, failure: self.failure },
                    writer_step(false, None, WriterNext::Execute),
                ),
                WriterEvent::ChannelEnded => (
                    WriterLoop {
                        phase: WriterPhase::Closing,
                        failure: Some(WriterFailure::ChannelClosedUnexpectedly),
                    },
                    writer_step(false, None, WriterNext::Teardown),
                ),
                _ => unchanged,
            },
            WriterPhase::Draining => match event {
                WriterEvent::Received => (
                    WriterLoop { phase: WriterPhase::Executing { draining: true }, failure: self.failure },
                    writer_step(false, None, WriterNext::Execute),
                ),
                WriterEvent::ChannelEnded => (
                    WriterLoop { phase: WriterPhase::Closing, failure: self.failure },
                    writer_step(false, None, WriterNext::Teardown),
                ),
                _ => unchanged,
            },
            WriterPhase::Executing { draining } => match event {
                WriterEvent::Committed(v) => (
                    WriterLoop {
                        phase: if draining { WriterPhase::Draining } else { WriterPhase::Accepting },
                        failure: self.failure,
                    },
                    writer_step(false, Some(Ok(v)), WriterNext::Receive { watch_shutdown: !draining }),
                ),
                WriterEvent::Failed { message, error } => (
                    WriterLoop { phase: WriterPhase::Closing, failure: Some(WriterFailure::Database(error)) },
                    writer_step(false, Some(Err(message)), WriterNext::Teardown),
                ),
                _ => unchanged,
            },
            WriterPhase::Closing => match event {
                WriterEvent::Closed(closed) => (
                    WriterLoop { phase: WriterPhase::Stopped, failure: None },
                    writer_step(
                        false,
                        None,
                        WriterNext::Finish(
                            match self.failure {
                                Some(f) => Err(f),
                                None => match closed {
                                    Ok(()) => Ok(()),
                                    Err(e) => Err(WriterFailure::Close(e)),
                                },
                            },
                        ),
                    ),
                ),
                _ => unchanged,
            },
            WriterPhase::Stopped => unchanged,
        }
    }

    /// The writer before its first command.
    pub open spec fn new_spec() -> Self {
        WriterLoop { phase: WriterPhase::Accepting, failure: None }
    }

    /// A writer that has not yet taken a command.
    pub fn new() -> (res: Self)
        ensures
            res == Self::new_spec(),
    {
        WriterLoop { phase: WriterPhase::Accepting, failure: None }
    }

    /// Takes one observation and says what to do next.
    pub fn step(&mut self, event: WriterEvent<E>) -> (res: WriterStep<E>)
        ensures
            (*final(self), res) == old(self).next(event),
    {
        match self.phase {
            WriterPhase::Accepting => match event {
                WriterEvent::ShutdownRequested => {
                    self.phase = WriterPhase::Draining;
                    WriterStep { close_queue: true, reply: None, next: WriterNext::Receive { watch_shutdown: false } }
                },
                WriterEvent::Received => {
                    self.phase = WriterPhase::Executing { draining: false };
                    WriterStep { close_queue: false, reply: None, next: WriterNext::Execute }
                },
                WriterEvent::ChannelEnded => {
                    self.phase = WriterPhase::Closing;
                    self.failure = Some(WriterFailure::ChannelClosedUnexpectedly);
                    WriterStep { close_queue: false, reply: None, next: WriterNext::Teardown }
                },
                _ => WriterStep { close_queue: false, reply: None, next: WriterNext::Unchanged },
            },
            WriterPhase::Draining => match event {
                WriterEvent::Received => {
                    self.phase = WriterPhase::Executing { draining: true };
                    WriterStep { close_queue: false, reply: None, next: WriterNext::Execute }
                },
                WriterEvent::ChannelEnded => {
                    self.phase = WriterPhase::Closing;
                    WriterStep { close_queue: false, reply: None, next: WriterNext::Teardown }
                },
                _ => WriterStep { close_queue: false, reply: None, next: WriterNext::Unchanged },
            },
            WriterPhase::Executing { draining } => match event {
                WriterEvent::Committed(v) => {
                    self.phase = if draining { WriterPhase::Draining } else { WriterPhase::Accepting };
                    WriterStep {
                        close_queue: false,
                        reply: Some(Ok(v)),
                        next: WriterNext::Receive { watch_shutdown: !draining },
                    }
                },
                WriterEvent::Failed { message, error } => {
                    self.phase = WriterPhase::Closing;
                    self.failure = Some(WriterFailure::Database(error));
                    WriterStep { close_queue: false, reply: Some(Err(message)), next: WriterNext::Teardown }
                },
                _ => WriterStep { close_queue: false, reply: None, next: WriterNext::Unchanged },
            },
            WriterPhase::Closing => match event {
                WriterEvent::Closed(closed) => {
                    self.phase = WriterPhase::Stopped;
                    let result = match self.failure.take() {
                        Some(f) => Err(f),
                        None => match closed {
                            Ok(()) => Ok(()),
                            Err(e) => Err(WriterFailure::Close(e)),
                        },
                    };
                    WriterStep { close_queue: false, reply: None, next: WriterNext::Finish(result) }
                },
                _ => WriterStep { close_queue: false, reply: None, next: WriterNext::Unchanged },
            },
            WriterPhase::Stopped => WriterStep { close_queue: false, reply: None, next: WriterNext::Unchanged },
        }
    }
}

impl<E> WriterLoop<E> {
    /// The states and steps that a sequence of events drives the writer
    /// through, starting from `self`.
    pub open spec fn run(self, events: Seq<WriterEvent<E>>) -> (WriterLoop<E>, Seq<WriterStep<E>>)
        decreases events.len(),
    {
        if events.len() == 0 {
            (self, Seq::empty())
        } else {
            let (after, step) = self.next(events[0]);
            let (last, steps) = after.run(events.drop_first());
            (last, seq![step] + steps)
        }
    }

    proof fn lemma_run_one(self, a: WriterEvent<E>)
        ensures
            self.run(seq![a]) == (self.next(a).0, seq![self.next(a).1]),
    {
        let events = seq![a];
        assert(events.drop_first() =~= Seq::<WriterEvent<E>>::empty());
        let after = self.next(a).0;
        assert(after.run(events.drop_first()) == (after, Seq::<WriterStep<E>>::empty()));
        assert(seq![self.next(a).1] + Seq::<WriterStep<E>>::empty() =~= seq![self.next(a).1]);
    }

    proof fn lemma_run_two(self, a: WriterEvent<E>, b: WriterEvent<E>)
        ensures
            self.run(seq![a, b]) == (
                self.next(a).0.next(b).0,
                seq![self.next(a).1, self.next(a).0.next(b).1],
            ),
    {
        let events = seq![a, b];
        assert(events.drop_first() =~= seq![b]);
        let after = self.next(a).0;
        after.lemma_run_one(b);
        assert(seq![self.next(a).1] + seq![after.next(b).1] =~= seq![self.next(a).1, after.next(b).1]);
    }

    proof fn lemma_run_append(self, a: Seq<WriterEvent<E>>, b: Seq<WriterEvent<E>>)
        ensures
            self.run(a + b).0 == self.run(a).0.run(b).0,
            self.run(a + b).1 == self.run(a).1 + self.run(a).0.run(b).1,
            self.run(a).1.len() == a.len(),
        decreases a.len(),
    {
        if a.len() == 0 {
            assert(a + b =~= b);
            assert(self.run(a).1 + self.run(b).1 =~= self.run(b).1);
        } else {
            let (after, step) = self.next(a[0]);
            assert((a + b).drop_first() =~= a.drop_first() + b);
            after.lemma_run_append(a.drop_first(), b);
            assert(seq![step] + (after.run(a.drop_first()).1 + after.run(a.drop_first()).0.run(b).1)
                =~= (seq![step] + after.run(a.drop_first()).1) + after.run(a.drop_first()).0.run(b).1);
        }
    }
}

/// The events of a queue that still holds one command for each of `values`,
/// each executed and committed with that value.
pub open spec fn drained_commits<E>(values: Seq<i64>) -> Seq<WriterEvent<E>>
    decreases values.len(),
{
    if values.len() == 0 {
        Seq::empty()
    } else {
        seq![WriterEvent::Received, WriterEvent::Committed(values[0])] + drained_commits(values.drop_first())
    }
}

/// Success is answered only for a commit: a step replies `Ok(v)` exactly
/// when it observed the commit of `v` for the command at hand.
pub proof fn reply_only_after_commit<E>(writer: WriterLoop<E>, event: WriterEvent<E>, v: i64)
    ensures
        writer.next(event).1.reply == Some(Ok::<i64, String>(v)) ==> event == WriterEvent::<E>::Committed(v),
{
}

/// The writer before or after the shutdown signal, with nothing pending.
pub open spec fn waiting<E>(draining: bool) -> WriterLoop<E> {
    WriterLoop {
        phase: if draining { WriterPhase::Draining } else { WriterPhase::Accepting },
        failure: None,
    }
}

proof fn lemma_drain<E>(draining: bool, values: Seq<i64>)
    ensures
        ({
            let start = waiting::<E>(draining);
            let (last, steps) = start.run(drained_commits::<E>(values));
            &&& last == start
            &&& steps.len() == 2 * values.len()
            &&& forall|i: int| 0 <= i < values.len() ==> {
                &&& #[trigger] steps[2 * i].next matches WriterNext::Execute
                &&& steps[2 * i].reply is None
                &&& steps[2 * i + 1].reply == Some(Ok::<i64, String>(values[i]))
                &&& steps[2 * i + 1].next == WriterNext::<E>::Receive { watch_shutdown: !draining }
                &&& !steps[2 * i].close_queue && !steps[2 * i + 1].close_queue
            }
        }),
    decreases values.len(),
{
    let start = waiting::<E>(draining);
    if values.len() > 0 {
        let head = seq![WriterEvent::<E>::Received, WriterEvent::Committed(values[0])];
        let tail = drained_commits::<E>(values.drop_first());
        start.lemma_run_append(head, tail);
        lemma_drain::<E>(draining, values.drop_first());
        start.lemma_run_two(WriterEvent::<E>::Received, WriterEvent::Committed(values[0]));
        let (mid, hs) = start.run(head);
        assert(mid == start);
        assert(values.drop_first().len() == values.len() - 1);
        let steps = start.run(drained_commits::<E>(values)).1;
        let rest = start.run(tail).1;
        assert(steps =~= hs + rest);
        assert forall|i: int| 0 <= i < values.len() implies {
            &&& #[trigger] steps[2 * i].next matches WriterNext::Execute
            &&& steps[2 * i].reply is None
            &&& steps[2 * i + 1].reply == Some(Ok::<i64, String>(values[i]))
            &&& steps[2 * i + 1].next == WriterNext::<E>::Receive { watch_shutdown: !draining }
            &&& !steps[2 * i].close_queue && !steps[2 * i + 1].close_queue
        } by {
            if i > 0 {
                assert(steps[2 * i] == rest[2 * (i - 1)]);
                assert(steps[2 * i + 1] == rest[2 * (i - 1) + 1]);
                assert(values[i] == values.drop_first()[i - 1]);
            }
        }
    } else {
        assert(start.run(drained_commits::<E>(values)).1 =~= Seq::<WriterStep<E>>::empty());
    }
}

/// Every admitted command runs exactly once, in admission order, and no
/// admitted command is lost to the shutdown: the writer executes and answers
/// the commands that come before the shutdown signal, closes the queue on the
/// signal, executes and answers each command that the queue still holds, and
/// finishes successfully once the queue is empty and the connection closes.
/// Each command's step executes it and the next step answers it with its
/// committed value and goes back to waiting, so no command runs twice.
pub proof fn shutdown_drains_admitted_writes<E>(before: Seq<i64>, after: Seq<i64>)
    ensures
        ({
            let events = drained_commits::<E>(before) + seq![WriterEvent::<E>::ShutdownRequested]
                + drained_commits::<E>(after) + seq![
                WriterEvent::<E>::ChannelEnded,
                WriterEvent::<E>::Closed(Ok(())),
            ];
            let steps = WriterLoop::<E>::new_spec().run(events).1;
            let b = 2 * before.len() as int;
            &&& steps.len() == b + 2 * after.len() + 3
            &&& forall|i: int| 0 <= i < before.len() ==> {
                &&& #[trigger] steps[2 * i].next matches WriterNext::Execute
                &&& steps[2 * i].reply is None
                &&& steps[2 * i + 1].reply == Some(Ok::<i64, String>(before[i]))
                &&& steps[2 * i + 1].next matches WriterNext::Receive { watch_shutdown: true }
                &&& !steps[2 * i].close_queue && !steps[2 * i + 1].close_queue
            }
            &&& steps[b].close_queue
            &&& steps[b].reply is None
            &&& steps[b].next matches WriterNext::Receive { watch_shutdown: false }
            &&& forall|i: int| 0 <= i < after.len() ==> {
                &&& #[trigger] steps[b + 1 + 2 * i].next matches WriterNext::Execute
                &&& steps[b + 1 + 2 * i].reply is None
                &&& steps[b + 2 + 2 * i].reply == Some(Ok::<i64, String>(after[i]))
                &&& steps[b + 2 + 2 * i].next matches WriterNext::Receive { watch_shutdown: false }
            }
            &&& steps[b + 2 * after.len() + 1].next matches WriterNext::Teardown
            &&& steps[b + 2 * after.len() + 2].next matches WriterNext::Finish(Ok(()))
        }),
{
    let start = WriterLoop::<E>::new_spec();
    let accepting = waiting::<E>(false);
    let draining = waiting::<E>(true);
    assert(start == accepting);
    let first = drained_commits::<E>(before);
    let stop = seq![WriterEvent::<E>::ShutdownRequested];
    let middle = drained_commits::<E>(after);
    let last = seq![WriterEvent::<E>::ChannelEnded, WriterEvent::<E>::Closed(Ok(()))];
    lemma_drain::<E>(false, before);
    lemma_drain::<E>(true, after);
    assert(first + stop + middle + last =~= first + (stop + (middle + last)));
    start.lemma_run_append(first, stop + (middle + last));
    accepting.lemma_run_append(stop, middle + last);
    accepting.lemma_run_one(WriterEvent::<E>::ShutdownRequested);
    assert(accepting.run(stop).0 == draining);
    draining.lemma_run_append(middle, last);
    draining.lemma_run_two(WriterEvent::<E>::ChannelEnded, WriterEvent::<E>::Closed(Ok(())));
    let fs = accepting.run(first).1;
    let ss = accepting.run(stop).1;
    let ms = draining.run(middle).1;
    let ls = draining.run(last).1;
    let steps = start.run(first + stop + middle + last).1;
    assert(steps =~= fs + (ss + (ms + ls)));
    let b = 2 * before.len() as int;
    assert forall|i: int| 0 <= i < before.len() implies {
        &&& #[trigger] steps[2 * i].next matches WriterNext::Execute
        &&& steps[2 * i].reply is None
        &&& steps[2 * i + 1].reply == Some(Ok::<i64, String>(before[i]))
        &&& steps[2 * i + 1].next matches WriterNext::Receive { watch_shutdown: true }
        &&& !steps[2 * i].close_queue && !steps[2 * i + 1].close_queue
    } by {
        assert(steps[2 * i] == fs[2 * i]);
        assert(steps[2 * i + 1] == fs[2 * i + 1]);
    }
    assert forall|i: int| 0 <= i < after.len() implies {
        &&& #[trigger] steps[b + 1 + 2 * i].next matches WriterNext::Execute
        &&& steps[b + 1 + 2 * i].reply is None
        &&& steps[b + 2 + 2 * i].reply == Some(Ok::<i64, String>(after[i]))
        &&& steps[b + 2 + 2 * i].next matches WriterNext::Receive { watch_shutdown: false }
    } by {
        assert(steps[b + 1 + 2 * i] == ms[2 * i]);
        assert(steps[b + 2 + 2 * i] == ms[2 * i + 1]);
    }
}

/// A step that ends the writer successfully.
pub open spec fn finishes_cleanly<E>(step: WriterStep<E>) -> bool {
    step.next matches WriterNext::Finish(Ok(()))
}

pub open spec fn is_shutdown<E>(event: WriterEvent<E>) -> bool {
    event matches WriterEvent::ShutdownRequested
}

/// A writer that has not seen the shutdown signal: it is accepting or
/// executing, or it is closing because of a failure, or it has stopped.
spec fn undisturbed<E>(w: WriterLoop<E>) -> bool {
    ||| w.phase == WriterPhase::Accepting
    ||| w.phase == (WriterPhase::Executing { draining: false })
    ||| (w.phase == WriterPhase::Closing && w.failure is Some)
    ||| w.phase == WriterPhase::Stopped
}

proof fn lemma_clean_finish<E>(w: WriterLoop<E>, events: Seq<WriterEvent<E>>)
    requires
        undisturbed(w),
    ensures
        forall|i: int|
            0 <= i < w.run(events).1.len() && finishes_cleanly(#[trigger] w.run(events).1[i])
                ==> exists|j: int| 0 <= j <= i && is_shutdown(events[j]),
    decreases events.len(),
{
    if events.len() > 0 {
        let (after, step) = w.next(events[0]);
        let tail = events.drop_first();
        let steps = w.run(events).1;
        if !(events[0] matches WriterEvent::ShutdownRequested) {
            assert(undisturbed(after));
            assert(!(step.next matches WriterNext::Finish(Ok(()))));
            lemma_clean_finish(after, tail);
            after.lemma_run_append(tail, Seq::empty());
            assert forall|i: int|
                0 <= i < steps.len() && finishes_cleanly(#[trigger] steps[i])
                implies exists|j: int| 0 <= j <= i && is_shutdown(events[j]) by {
                assert(i > 0);
                assert(steps[i] == after.run(tail).1[i - 1]);
                let j = choose|j: int| 0 <= j <= i - 1 && is_shutdown(tail[j]);
                assert(events[j + 1] == tail[j]);
            }
        } else {
            assert forall|i: int|
                0 <= i < steps.len() && finishes_cleanly(#[trigger] steps[i])
                implies exists|j: int| 0 <= j <= i && is_shutdown(events[j]) by {
                assert(events[0] matches WriterEvent::ShutdownRequested);
            }
        }
    }
}

/// The writer finishes successfully only after the shutdown signal: while it
/// is accepting, an end of the queue is a failure, and so is a failed write.
pub proof fn clean_finish_follows_shutdown<E>(events: Seq<WriterEvent<E>>)
    ensures
        forall|i: int|
            0 <= i < WriterLoop::<E>::new_spec().run(events).1.len()
                && finishes_cleanly(#[trigger] WriterLoop::<E>::new_spec().run(events).1[i])
                ==> exists|j: int| 0 <= j <= i && is_shutdown(events[j]),
{
    lemma_clean_finish(WriterLoop::<E>::new_spec(), events);
}

/// A failed write is answered with its error message, and the writer then
/// finishes with that failure whatever the close reports.
pub proof fn failed_write_stops_writer<E>(draining: bool, message: String, error: E, closed: Result<(), E>)
    ensures
        ({
            let executing = WriterLoop::<E> { phase: WriterPhase::Executing { draining }, failure: None };
            let (closing, answer) = executing.next(WriterEvent::Failed { message, error });
            let (stopped, last) = closing.next(WriterEvent::Closed(closed));
            &&& answer.reply == Some(Err::<i64, String>(message))
            &&& answer.next matches WriterNext::Teardown
            &&& last.next == WriterNext::Finish(Err::<(), WriterFailure<E>>(WriterFailure::Database(error)))
            &&& stopped.phase == WriterPhase::Stopped
        }),
{
}

/// The writer closes SQLite only after the queue ended or a write failed:
/// a step tears down exactly on those observations.
pub proof fn teardown_follows_queue_end_or_failure<E>(writer: WriterLoop<E>, event: WriterEvent<E>)
    ensures
        writer.next(event).1.next matches WriterNext::Teardown ==> (event matches WriterEvent::ChannelEnded || event matches WriterEvent::Failed { .. }),
        writer.next(event).1.next matches WriterNext::Finish(_) ==> writer.phase == WriterPhase::Closing && event matches WriterEvent::Closed(_),
{
}

/// A successful answer confirms a commit: when a caller is told `Ok(v)`,
/// the writer's step that produced the reply observed the commit of `v`.
pub proof fn success_confirms_commit<E>(writer: WriterLoop<E>, event: WriterEvent<E>, v: i64)
    ensures
        write_answer(true, writer.next(event).1.reply) == Ok::<i64, WriteError>(v) ==> event
            == WriterEvent::<E>::Committed(v),
{
}

} // verus!
