//! Process composition: configuration, the log style, how a finished task
//! is judged, and the lifecycle that opens the database, waits for the
//! replication barrier, serves HTTP, and shuts down in order: readiness off,
//! HTTP drained, writes drained, SQLite closed.
use vstd::prelude::*;

use crate::text::{decimal, parse_u16, parse_u64, parse_unsigned, push_decimal, same_text};

verus! {

/// The text of an optional setting, or the default when it is unset.
pub open spec fn text_or(value: Option<String>, default: Seq<char>) -> Seq<char> {
    match value {
        Some(s) => s@,
        None => default,
    }
}

/// The process settings.
pub struct Configuration {
    pub sqlite_path: String,
    pub port: u16,
    pub shutdown_timeout_secs: u64,
}

/// A setting that cannot be used.
#[derive(Clone, Copy, PartialEq, Eq, Structural)]
pub enum ConfigError {
    InvalidPort,
    InvalidShutdownTimeout,
    NonPositiveShutdownTimeout,
}

pub open spec fn config_error_text(e: ConfigError) -> Seq<char> {
    match e {
        ConfigError::InvalidPort => "PORT must be a valid TCP port"@,
        ConfigError::InvalidShutdownTimeout => "SHUTDOWN_TIMEOUT_SECONDS must be an integer"@,
        ConfigError::NonPositiveShutdownTimeout => "SHUTDOWN_TIMEOUT_SECONDS must be positive"@,
    }
}

impl ConfigError {
    /// The message that explains the error.
    pub fn message(&self) -> (res: &'static str)
        ensures
            res@ == config_error_text(*self),
    {
        match self {
            ConfigError::InvalidPort => "PORT must be a valid TCP port",
            ConfigError::InvalidShutdownTimeout => "SHUTDOWN_TIMEOUT_SECONDS must be an integer",
            ConfigError::NonPositiveShutdownTimeout => "SHUTDOWN_TIMEOUT_SECONDS must be positive",
        }
    }
}

impl Configuration {
    /// The configuration from the values of `SQLITE_PATH`, `PORT` and
    /// `SHUTDOWN_TIMEOUT_SECONDS` (`None` where a variable is unset):
    /// the defaults are `./data/demo.sqlite`, `3000` and `25`; the port must
    /// parse as a `u16`, the timeout as a positive `u64` number of seconds.
    pub fn from_values(
        sqlite_path: Option<String>,
        port: Option<String>,
        shutdown_timeout: Option<String>,
    ) -> (res: Result<Configuration, ConfigError>)
        ensures
            match parse_unsigned(text_or(port, "3000"@), u16::MAX as nat) {
                None => res == Err::<Configuration, ConfigError>(ConfigError::InvalidPort),
                Some(p) => match parse_unsigned(text_or(shutdown_timeout, "25"@), u64::MAX as nat) {
                    None => res == Err::<Configuration, ConfigError>(ConfigError::InvalidShutdownTimeout),
                    Some(t) => if t == 0 {
                        res == Err::<Configuration, ConfigError>(ConfigError::NonPositiveShutdownTimeout)
                    } else {
                        &&& res is Ok
                        &&& res->Ok_0.port == p
                        &&& res->Ok_0.shutdown_timeout_secs == t
                        &&& res->Ok_0.sqlite_path@ == text_or(sqlite_path, "./data/demo.sqlite"@)
                    },
                },
            },
    {
        let path = match sqlite_path {
            Some(p) => p,
            None => String::from_str("./data/demo.sqlite"),
        };
        let port_text = match port {
            Some(p) => p,
            None => String::from_str("3000"),
        };
        let port_value: u16 = match parse_u16(port_text.as_str()) {
            Some(p) => p,
            None => return Err(ConfigError::InvalidPort),
        };
        let timeout_text = match shutdown_timeout {
            Some(t) => t,
            None => String::from_str("25"),
        };
        let timeout: u64 = match parse_u64(timeout_text.as_str()) {
            Some(t) => t,
            None => return Err(ConfigError::InvalidShutdownTimeout),
        };
        if timeout == 0 {
            return Err(ConfigError::NonPositiveShutdownTimeout);
        }
        Ok(Configuration { sqlite_path: path, port: port_value, shutdown_timeout_secs: timeout })
    }
}

/// Whether log lines get ANSI colors: `RUST_LOG_STYLE` set to `always` or
/// `never` decides; otherwise colors go to a terminal unless `NO_COLOR` is
/// set to a nonempty value. `no_color_empty` is `None` when `NO_COLOR` is
/// unset, else whether its value is empty.
pub fn log_ansi(style: Option<String>, stderr_is_terminal: bool, no_color_empty: Option<bool>) -> (res: bool)
    ensures
        res == if style matches Some(s) && s@ == "always"@ {
            true
        } else if style matches Some(s) && s@ == "never"@ {
            false
        } else {
            stderr_is_terminal && match no_color_empty {
                None => true,
                Some(empty) => empty,
            }
        },
{
    match &style {
        Some(s) => {
            if same_text(s.as_str(), "always") {
                return true;
            }
            if same_text(s.as_str(), "never") {
                return false;
            }
        },
        None => {},
    }
    stderr_is_terminal && match no_color_empty {
        None => true,
        Some(empty) => empty,
    }
}

/// The two supervised tasks.
#[derive(Clone, Copy, PartialEq, Eq, Structural)]
pub enum Task {
    Http,
    DatabaseWriter,
}

pub open spec fn task_name(task: Task) -> Seq<char> {
    match task {
        Task::Http => "HTTP"@,
        Task::DatabaseWriter => "database writer"@,
    }
}

impl Task {
    /// The name used in messages about the task.
    pub fn name(&self) -> (res: &'static str)
        ensures
            res@ == task_name(*self),
    {
        match self {
            Task::Http => "HTTP",
            Task::DatabaseWriter => "database writer",
        }
    }
}

/// How a supervised task ended.
pub enum TaskExit<E> {
    /// It returned success.
    Completed,
    /// It returned an error.
    Failed(E),
    /// It panicked or was aborted.
    Panicked(E),
}

/// Why a task's end is a failure.
pub enum FailureCause<E> {
    StoppedUnexpectedly,
    Failed(E),
    Panicked(E),
}

/// A task that ended in a way that fails the application.
pub struct TaskFailure<E> {
    pub task: Task,
    pub cause: FailureCause<E>,
}

/// A task's end judged: success is a failure only where the task was
/// expected to keep running; an error or a panic is always one.
pub open spec fn task_failure_of<E>(task: Task, result: TaskExit<E>, unexpected: bool) -> Option<TaskFailure<E>> {
    match result {
        TaskExit::Completed => if unexpected {
            Some(TaskFailure { task, cause: FailureCause::StoppedUnexpectedly })
        } else {
            None
        },
        TaskExit::Failed(e) => Some(TaskFailure { task, cause: FailureCause::Failed(e) }),
        TaskExit::Panicked(e) => Some(TaskFailure { task, cause: FailureCause::Panicked(e) }),
    }
}

/// Judges how a task ended.
pub fn task_failure<E>(task: Task, result: TaskExit<E>, unexpected: bool) -> (res: Option<TaskFailure<E>>)
    ensures
        res == task_failure_of(task, result, unexpected),
{
    match result {
        TaskExit::Completed => if unexpected {
            Some(TaskFailure { task, cause: FailureCause::StoppedUnexpectedly })
        } else {
            None
        },
        TaskExit::Failed(e) => Some(TaskFailure { task, cause: FailureCause::Failed(e) }),
        TaskExit::Panicked(e) => Some(TaskFailure { task, cause: FailureCause::Panicked(e) }),
    }
}

pub open spec fn failure_context<E>(f: TaskFailure<E>) -> Seq<char> {
    task_name(f.task) + match f.cause {
        FailureCause::StoppedUnexpectedly => " task stopped unexpectedly"@,
        FailureCause::Failed(_) => " task failed"@,
        FailureCause::Panicked(_) => " task panicked or was aborted"@,
    }
}

impl<E> TaskFailure<E> {
    /// The message put in front of the task's own error.
    pub fn context(&self) -> (res: String)
        ensures
            res@ == failure_context(*self),
    {
        let name = String::from_str(self.task.name());
        match &self.cause {
            FailureCause::StoppedUnexpectedly => name.concat(" task stopped unexpectedly"),
            FailureCause::Failed(_) => name.concat(" task failed"),
            FailureCause::Panicked(_) => name.concat(" task panicked or was aborted"),
        }
    }
}

/// The first failure of two, and the other one, when both failed.
pub struct FirstFailure<E> {
    /// The first result that failed, else success.
    pub result: Result<(), E>,
    /// The second failure, when the first one is reported in its place.
    pub discarded: Option<E>,
}

pub open spec fn first_failure_of<E>(first: Result<(), E>, second: Result<(), E>) -> FirstFailure<E> {
    match first {
        Err(e) => FirstFailure {
            result: Err(e),
            discarded: match second {
                Err(d) => Some(d),
                Ok(()) => None,
            },
        },
        Ok(()) => FirstFailure { result: second, discarded: None },
    }
}

/// The first of two results that failed, success only when both succeeded;
/// when both failed, the second failure is handed back too, to be reported
/// as an additional failure.
pub fn first_failure<E>(first: Result<(), E>, second: Result<(), E>) -> (res: FirstFailure<E>)
    ensures
        res == first_failure_of(first, second),
        res.result is Err <==> (first is Err || second is Err),
        res.discarded is Some <==> (first is Err && second is Err),
{
    match first {
        Err(e) => FirstFailure {
            result: Err(e),
            discarded: match second {
                Err(d) => Some(d),
                Ok(()) => None,
            },
        },
        Ok(()) => FirstFailure { result: second, discarded: None },
    }
}

/// The startup step that failed.
#[derive(Clone, Copy, PartialEq, Eq, Structural)]
pub enum StartupStage {
    OpenDatabase,
    Replication,
    BindListener,
}

pub open spec fn stage_text(stage: StartupStage) -> Seq<char> {
    match stage {
        StartupStage::OpenDatabase => "initialize SQLite"@,
        StartupStage::Replication => "initialize Litestream replication"@,
        StartupStage::BindListener => "bind HTTP listener"@,
    }
}

impl StartupStage {
    /// The message put in front of the step's own error.
    pub fn context(&self) -> (res: &'static str)
        ensures
            res@ == stage_text(*self),
    {
        match self {
            StartupStage::OpenDatabase => "initialize SQLite",
            StartupStage::Replication => "initialize Litestream replication",
            StartupStage::BindListener => "bind HTTP listener",
        }
    }
}

/// Why the application ended with an error.
pub enum AppFailure<E> {
    /// A startup step failed: opening the database, the replication
    /// barrier, or binding the listener.
    Startup { stage: StartupStage, error: E },
    /// A supervised task failed.
    Task(TaskFailure<E>),
    /// Draining did not finish within the shutdown timeout.
    ShutdownTimedOut { seconds: u64 },
}

pub open spec fn timeout_text(seconds: u64) -> Seq<char> {
    "shutdown exceeded "@ + decimal(seconds as nat) + "s; accepted write outcomes may be unknown"@
}

/// The message for a shutdown that ran out of time.
pub fn shutdown_timeout_message(seconds: u64) -> (res: String)
    ensures
        res@ == timeout_text(seconds),
{
    let mut text = String::from_str("shutdown exceeded ");
    push_decimal(&mut text, seconds);
    text.append("s; accepted write outcomes may be unknown");
    text
}

/// Where the application stands.
#[derive(Clone, Copy, PartialEq, Eq, Structural)]
pub enum LifecyclePhase {
    /// Nothing has happened yet.
    Idle,
    /// The database is being opened and its writer started.
    Opening,
    /// Waiting for the replication barrier, while watching the stop signal
    /// and the writer.
    Replicating,
    /// The barrier passed; binding the listener, while watching the stop
    /// signal and the writer.
    Binding,
    /// HTTP is served; the stop signal, HTTP and the writer are watched.
    Serving,
    /// Shutdown began: readiness is off and HTTP was told to stop; waiting
    /// for HTTP to finish its requests.
    DrainingHttp,
    /// The writer was told to stop; waiting for it to drain and close SQLite.
    DrainingWriter,
    /// Draining ran out of time; the tasks were aborted and are awaited.
    Aborting,
    /// The application has ended.
    Finished,
}

/// What the driver observed.
pub enum LifecycleEvent<E> {
    /// Startup began; `requested` says whether a stop was already requested.
    Begin { requested: bool },
    /// The database opened and its writer task started.
    Opened,
    /// Opening the database failed.
    OpenFailed(E),
    /// The replication barrier passed; `requested` says whether a stop was
    /// requested meanwhile.
    ReplicationReady { requested: bool },
    /// The replication barrier failed.
    ReplicationFailed(E),
    /// The listener is bound; `requested` says whether a stop was requested
    /// meanwhile.
    ListenerBound { requested: bool },
    /// Binding the listener failed.
    BindFailed(E),
    /// The stop signal fired.
    Requested,
    /// The HTTP task ended.
    HttpExited(TaskExit<E>),
    /// The writer task ended.
    WriterExited(TaskExit<E>),
    /// The shutdown timeout elapsed before draining finished.
    DrainTimedOut,
    /// The aborted tasks have been awaited.
    TasksJoined,
}

/// What the driver waits for or does after a step's actions.
pub enum LifecycleNext<E> {
    /// Open the database and start its writer.
    OpenDatabase,
    /// Run the replication barrier, watching the stop signal and the writer.
    AwaitReplication,
    /// Bind the HTTP listener, watching the stop signal and the writer.
    BindListener,
    /// Start serving HTTP, then watch the stop signal, HTTP and the writer.
    Serve,
    /// Wait for the HTTP task to finish.
    AwaitHttp,
    /// Wait for the writer task to finish.
    AwaitWriter,
    /// Wait for the aborted tasks.
    AwaitAborted,
    /// End the application as the report says.
    Exit(ExitReport<E>),
    /// The event does not apply to the current phase; nothing changes.
    Unchanged,
}

/// How the application ends: its result, and the failures that a first
/// failure displaced, to be reported as additional failures.
pub struct ExitReport<E> {
    pub result: Result<(), AppFailure<E>>,
    /// The failure of the shutdown itself (the drain or its timeout), when an
    /// earlier failure is the result.
    pub discarded: Option<AppFailure<E>>,
    /// How the writer ended, when HTTP also failed while draining.
    pub cleanup_discarded: Option<AppFailure<E>>,
}

pub open spec fn exit_report<E>(
    result: Result<(), AppFailure<E>>,
    discarded: Option<AppFailure<E>>,
    cleanup_discarded: Option<AppFailure<E>>,
) -> LifecycleNext<E> {
    LifecycleNext::Exit(ExitReport { result, discarded, cleanup_discarded })
}

/// One step's actions, in this order: begin the shutdown (readiness off,
/// HTTP told to stop, the shutdown timer started), tell the writer to stop,
/// abort the tasks after a timeout (the writer is told to stop too); then go
/// on as `next` says.
pub struct LifecycleStep<E> {
    pub begin_shutdown: bool,
    pub stop_writer: bool,
    pub abort_tasks: bool,
    pub next: LifecycleNext<E>,
}

/// The application's supervision state.
pub struct Lifecycle<E> {
    pub phase: LifecyclePhase,
    pub shutdown_timeout_secs: u64,
    /// The HTTP task runs and has not been awaited.
    pub http_running: bool,
    /// The writer task runs and has not been awaited.
    pub writer_running: bool,
    /// The failure that ended serving or startup, reported first.
    pub failure: Option<AppFailure<E>>,
    /// How HTTP ended while draining, if that is a failure.
    pub http_failure: Option<AppFailure<E>>,
}

pub open spec fn lifecycle_step<E>(begin_shutdown: bool, stop_writer: bool, abort_tasks: bool, next: LifecycleNext<E>) -> LifecycleStep<E> {
    LifecycleStep { begin_shutdown, stop_writer, abort_tasks, next }
}

pub open spec fn as_result<E>(f: Option<AppFailure<E>>) -> Result<(), AppFailure<E>> {
    match f {
        Some(e) => Err(e),
        None => Ok(()),
    }
}

pub open spec fn as_app_failure<E>(f: Option<TaskFailure<E>>) -> Option<AppFailure<E>> {
    match f {
        Some(t) => Some(AppFailure::Task(t)),
        None => None,
    }
}

impl<E> Lifecycle<E> {
    pub open spec fn new_spec(shutdown_timeout_secs: u64) -> Self {
        Lifecycle {
            phase: LifecyclePhase::Idle,
            shutdown_timeout_secs,
            http_running: false,
            writer_running: false,
            failure: None,
            http_failure: None,
        }
    }

    pub open spec fn with_phase(self, phase: LifecyclePhase) -> Self {
        Lifecycle { phase, ..self }
    }

    /// The end of the drain: the first failure among the one that ended
    /// serving, how HTTP ended, and how the writer ended.
    pub open spec fn finished_with(self, writer_failure: Option<AppFailure<E>>) -> (Self, LifecycleStep<E>) {
        let cleanup = first_failure_of(as_result(self.http_failure), as_result(writer_failure));
        let outcome = first_failure_of(as_result(self.failure), cleanup.result);
        (
            Lifecycle { phase: LifecyclePhase::Finished, failure: None, http_failure: None, ..self },
            lifecycle_step(false, false, false, exit_report(outcome.result, outcome.discarded, cleanup.discarded)),
        )
    }

    /// The end after a drain that ran out of time: the failure that ended
    /// serving, if any, else the timeout.
    pub open spec fn timed_out_exit(self) -> LifecycleNext<E> {
        let outcome = first_failure_of(
            as_result(self.failure),
            Err(AppFailure::ShutdownTimedOut { seconds: self.shutdown_timeout_secs }),
        );
        exit_report(outcome.result, outcome.discarded, None)
    }

    /// HTTP is done: tell the writer to stop and wait for it, if it runs.
    pub open spec fn after_http(self) -> (Self, LifecycleStep<E>) {
        if self.writer_running {
            (self.with_phase(LifecyclePhase::DrainingWriter), lifecycle_step(false, true, false, LifecycleNext::AwaitWriter))
        } else {
            let (s, st) = self.finished_with(None);
            (s, LifecycleStep { stop_writer: true, ..st })
        }
    }

    /// Shutdown begins, remembering the failure that caused it.
    pub open spec fn shutting_down(self, failure: Option<AppFailure<E>>) -> (Self, LifecycleStep<E>) {
        let s = Lifecycle { failure, http_failure: None, ..self };
        if s.http_running {
            (s.with_phase(LifecyclePhase::DrainingHttp), lifecycle_step(true, false, false, LifecycleNext::AwaitHttp))
        } else {
            let (t, st) = s.after_http();
            (t, LifecycleStep { begin_shutdown: true, ..st })
        }
    }

    /// The application's transition: the state after `event`, and what to do.
    pub open spec fn next(self, event: LifecycleEvent<E>) -> (Self, LifecycleStep<E>) {
        let unchanged = (self, lifecycle_step(false, false, false, LifecycleNext::Unchanged));
        let aborting = (
            self.with_phase(LifecyclePhase::Aborting),
            lifecycle_step(false, false, true, LifecycleNext::AwaitAborted),
        );
        match self.phase {
            LifecyclePhase::Idle => match event {
                LifecycleEvent::Begin { requested } => if requested {
                    (self.with_phase(LifecyclePhase::Finished), lifecycle_step(false, false, false, exit_report(Ok(()), None, None)))
                } else {
                    (self.with_phase(LifecyclePhase::Opening), lifecycle_step(false, false, false, LifecycleNext::OpenDatabase))
                },
                _ => unchanged,
            },
            LifecyclePhase::Opening => match event {
                LifecycleEvent::Opened => (
                    Lifecycle { phase: LifecyclePhase::Replicating, writer_running: true, ..self },
                    lifecycle_step(false, false, false, LifecycleNext::AwaitReplication),
                ),
                LifecycleEvent::OpenFailed(e) => (
                    self.with_phase(LifecyclePhase::Finished),
                    lifecycle_step(
                        false,
                        false,
                        false,
                        exit_report(Err(AppFailure::Startup { stage: StartupStage::OpenDatabase, error: e }), None, None),
                    ),
                ),
                _ => unchanged,
            },
            LifecyclePhase::Replicating => match event {
                LifecycleEvent::Requested => self.shutting_down(None),
                LifecycleEvent::WriterExited(x) => Lifecycle { writer_running: false, ..self }.shutting_down(
                    as_app_failure(task_failure_of(Task::DatabaseWriter, x, true)),
                ),
                LifecycleEvent::ReplicationFailed(e) => self.shutting_down(
                    Some(AppFailure::Startup { stage: StartupStage::Replication, error: e }),
                ),
                LifecycleEvent::ReplicationReady { requested } => if requested {
                    self.shutting_down(None)
                } else {
                    (self.with_phase(LifecyclePhase::Binding), lifecycle_step(false, false, false, LifecycleNext::BindListener))
                },
                _ => unchanged,
            },
            LifecyclePhase::Binding => match event {
                LifecycleEvent::Requested => self.shutting_down(None),
                LifecycleEvent::WriterExited(x) => Lifecycle { writer_running: false, ..self }.shutting_down(
                    as_app_failure(task_failure_of(Task::DatabaseWriter, x, true)),
                ),
                LifecycleEvent::BindFailed(e) => self.shutting_down(
                    Some(AppFailure::Startup { stage: StartupStage::BindListener, error: e }),
                ),
                LifecycleEvent::ListenerBound { requested } => if requested {
                    self.shutting_down(None)
                } else {
                    (
                        Lifecycle { phase: LifecyclePhase::Serving, http_running: true, ..self },
                        lifecycle_step(false, false, false, LifecycleNext::Serve),
                    )
                },
                _ => unchanged,
            },
            LifecyclePhase::Serving => match event {
                LifecycleEvent::Requested => self.shutting_down(None),
                LifecycleEvent::HttpExited(x) => Lifecycle { http_running: false, ..self }.shutting_down(
                    as_app_failure(task_failure_of(Task::Http, x, true)),
                ),
                LifecycleEvent::WriterExited(x) => Lifecycle { writer_running: false, ..self }.shutting_down(
                    as_app_failure(task_failure_of(Task::DatabaseWriter, x, true)),
                ),
                _ => unchanged,
            },
            LifecyclePhase::DrainingHttp => match event {
                LifecycleEvent::HttpExited(x) => Lifecycle {
                    http_running: false,
                    http_failure: as_app_failure(task_failure_of(Task::Http, x, false)),
                    ..self
                }.after_http(),
                LifecycleEvent::DrainTimedOut => aborting,
                _ => unchanged,
            },
            LifecyclePhase::DrainingWriter => match event {
                LifecycleEvent::WriterExited(x) => Lifecycle { writer_running: false, ..self }.finished_with(
                    as_app_failure(task_failure_of(Task::DatabaseWriter, x, false)),
                ),
                LifecycleEvent::DrainTimedOut => aborting,
                _ => unchanged,
            },
            LifecyclePhase::Aborting => match event {
                LifecycleEvent::TasksJoined => (
                    Lifecycle {
                        phase: LifecyclePhase::Finished,
                        http_running: false,
                        writer_running: false,
                        failure: None,
                        http_failure: None,
                        ..self
                    },
                    lifecycle_step(
                        false,
                        false,
                        false,
                        self.timed_out_exit(),
                    ),
                ),
                _ => unchanged,
            },
            LifecyclePhase::Finished => unchanged,
        }
    }
}

fn into_result<E>(f: Option<AppFailure<E>>) -> (res: Result<(), AppFailure<E>>)
    ensures
        res == as_result(f),
{
    match f {
        Some(e) => Err(e),
        None => Ok(()),
    }
}

fn into_app_failure<E>(f: Option<TaskFailure<E>>) -> (res: Option<AppFailure<E>>)
    ensures
        res == as_app_failure(f),
{
    match f {
        Some(t) => Some(AppFailure::Task(t)),
        None => None,
    }
}

impl<E> Lifecycle<E> {
    /// The state before startup, with the configured shutdown timeout.
    pub fn new(shutdown_timeout_secs: u64) -> (res: Self)
        ensures
            res == Self::new_spec(shutdown_timeout_secs),
    {
        Lifecycle {
            phase: LifecyclePhase::Idle,
            shutdown_timeout_secs,
            http_running: false,
            writer_running: false,
            failure: None,
            http_failure: None,
        }
    }

    fn finish(&mut self, writer_failure: Option<AppFailure<E>>) -> (res: LifecycleStep<E>)
        ensures
            (*final(self), res) == old(self).finished_with(writer_failure),
    {
        let http = into_result(self.http_failure.take());
        let writer = into_result(writer_failure);
        let cleanup = first_failure(http, writer);
        let first = into_result(self.failure.take());
        let outcome = first_failure(first, cleanup.result);
        self.phase = LifecyclePhase::Finished;
        LifecycleStep {
            begin_shutdown: false,
            stop_writer: false,
            abort_tasks: false,
            next: LifecycleNext::Exit(
                ExitReport { result: outcome.result, discarded: outcome.discarded, cleanup_discarded: cleanup.discarded },
            ),
        }
    }

    fn drain_writer(&mut self) -> (res: LifecycleStep<E>)
        ensures
            (*final(self), res) == old(self).after_http(),
    {
        if self.writer_running {
            self.phase = LifecyclePhase::DrainingWriter;
            LifecycleStep { begin_shutdown: false, stop_writer: true, abort_tasks: false, next: LifecycleNext::AwaitWriter }
        } else {
            let st = self.finish(None);
            LifecycleStep { stop_writer: true, ..st }
        }
    }

    fn start_shutdown(&mut self, failure: Option<AppFailure<E>>) -> (res: LifecycleStep<E>)
        ensures
            (*final(self), res) == old(self).shutting_down(failure),
    {
        self.failure = failure;
        self.http_failure = None;
        if self.http_running {
            self.phase = LifecyclePhase::DrainingHttp;
            LifecycleStep { begin_shutdown: true, stop_writer: false, abort_tasks: false, next: LifecycleNext::AwaitHttp }
        } else {
            let st = self.drain_writer();
            LifecycleStep { begin_shutdown: true, ..st }
        }
    }

    fn abort(&mut self) -> (res: LifecycleStep<E>)
        requires
            old(self).phase == LifecyclePhase::DrainingHttp || old(self).phase == LifecyclePhase::DrainingWriter,
        ensures
            (*final(self), res) == old(self).next(LifecycleEvent::DrainTimedOut),
    {
        self.phase = LifecyclePhase::Aborting;
        LifecycleStep { begin_shutdown: false, stop_writer: false, abort_tasks: true, next: LifecycleNext::AwaitAborted }
    }

    /// Takes one observation and says what to do next.
    pub fn step(&mut self, event: LifecycleEvent<E>) -> (res: LifecycleStep<E>)
        ensures
            (*final(self), res) == old(self).next(event),
    {
        let unchanged = LifecycleStep {
            begin_shutdown: false,
            stop_writer: false,
            abort_tasks: false,
            next: LifecycleNext::Unchanged,
        };
        match self.phase {
            LifecyclePhase::Idle => match event {
                LifecycleEvent::Begin { requested } => if requested {
                    self.phase = LifecyclePhase::Finished;
                    LifecycleStep {
                        next: LifecycleNext::Exit(ExitReport { result: Ok(()), discarded: None, cleanup_discarded: None }),
                        ..unchanged
                    }
                } else {
                    self.phase = LifecyclePhase::Opening;
                    LifecycleStep { next: LifecycleNext::OpenDatabase, ..unchanged }
                },
                _ => unchanged,
            },
            LifecyclePhase::Opening => match event {
                LifecycleEvent::Opened => {
                    self.phase = LifecyclePhase::Replicating;
                    self.writer_running = true;
                    LifecycleStep { next: LifecycleNext::AwaitReplication, ..unchanged }
                },
                LifecycleEvent::OpenFailed(e) => {
                    self.phase = LifecyclePhase::Finished;
                    LifecycleStep {
                        next: LifecycleNext::Exit(
                            ExitReport {
                                result: Err(AppFailure::Startup { stage: StartupStage::OpenDatabase, error: e }),
                                discarded: None,
                                cleanup_discarded: None,
                            },
                        ),
                        ..unchanged
                    }
                },
                _ => unchanged,
            },
            LifecyclePhase::Replicating => match event {
                LifecycleEvent::Requested => self.start_shutdown(None),
                LifecycleEvent::WriterExited(x) => {
                    self.writer_running = false;
                    let f = into_app_failure(task_failure(Task::DatabaseWriter, x, true));
                    self.start_shutdown(f)
                },
                LifecycleEvent::ReplicationFailed(e) => self.start_shutdown(
                    Some(AppFailure::Startup { stage: StartupStage::Replication, error: e }),
                ),
                LifecycleEvent::ReplicationReady { requested } => if requested {
                    self.start_shutdown(None)
                } else {
                    self.phase = LifecyclePhase::Binding;
                    LifecycleStep { next: LifecycleNext::BindListener, ..unchanged }
                },
                _ => unchanged,
            },
            LifecyclePhase::Binding => match event {
                LifecycleEvent::Requested => self.start_shutdown(None),
                LifecycleEvent::WriterExited(x) => {
                    self.writer_running = false;
                    let f = into_app_failure(task_failure(Task::DatabaseWriter, x, true));
                    self.start_shutdown(f)
                },
                LifecycleEvent::BindFailed(e) => self.start_shutdown(
                    Some(AppFailure::Startup { stage: StartupStage::BindListener, error: e }),
                ),
                LifecycleEvent::ListenerBound { requested } => if requested {
                    self.start_shutdown(None)
                } else {
                    self.phase = LifecyclePhase::Serving;
                    self.http_running = true;
                    LifecycleStep { next: LifecycleNext::Serve, ..unchanged }
                },
                _ => unchanged,
            },
            LifecyclePhase::Serving => match event {
                LifecycleEvent::Requested => self.start_shutdown(None),
                LifecycleEvent::HttpExited(x) => {
                    self.http_running = false;
                    let f = into_app_failure(task_failure(Task::Http, x, true));
                    self.start_shutdown(f)
                },
                LifecycleEvent::WriterExited(x) => {
                    self.writer_running = false;
                    let f = into_app_failure(task_failure(Task::DatabaseWriter, x, true));
                    self.start_shutdown(f)
                },
                _ => unchanged,
            },
            LifecyclePhase::DrainingHttp => match event {
                LifecycleEvent::HttpExited(x) => {
                    self.http_running = false;
                    self.http_failure = into_app_failure(task_failure(Task::Http, x, false));
                    self.drain_writer()
                },
                LifecycleEvent::DrainTimedOut => self.abort(),
                _ => unchanged,
            },
            LifecyclePhase::DrainingWriter => match event {
                LifecycleEvent::WriterExited(x) => {
                    self.writer_running = false;
                    let f = into_app_failure(task_failure(Task::DatabaseWriter, x, false));
                    self.finish(f)
                },
                LifecycleEvent::DrainTimedOut => self.abort(),
                _ => unchanged,
            },
            LifecyclePhase::Aborting => match event {
                LifecycleEvent::TasksJoined => {
                    self.phase = LifecyclePhase::Finished;
                    self.http_running = false;
                    self.writer_running = false;
                    self.http_failure = None;
                    let first = into_result(self.failure.take());
                    let timed_out = Err(AppFailure::ShutdownTimedOut { seconds: self.shutdown_timeout_secs });
                    let outcome = first_failure(first, timed_out);
                    LifecycleStep {
                        next: LifecycleNext::Exit(
                            ExitReport { result: outcome.result, discarded: outcome.discarded, cleanup_discarded: None },
                        ),
                        ..unchanged
                    }
                },
                _ => unchanged,
            },
            LifecyclePhase::Finished => unchanged,
        }
    }
}

impl<E> Lifecycle<E> {
    /// The states and steps that a sequence of events drives the application
    /// through, starting from `self`.
    pub open spec fn run(self, events: Seq<LifecycleEvent<E>>) -> (Self, Seq<LifecycleStep<E>>)
        decreases events.len(),
    {
        if events.len() == 0 {
            (self, Seq::empty())
        } else {
            let (after, step) = self.next(events[0]);
            let (last, steps) = after.run(events.drop_first());
            (last, seq![step] + steps)
        }
    }

    proof fn lemma_run_len(self, events: Seq<LifecycleEvent<E>>)
        ensures
            self.run(events).1.len() == events.len(),
        decreases events.len(),
    {
        if events.len() > 0 {
            self.next(events[0]).0.lemma_run_len(events.drop_first());
        }
    }
}

/// A phase in which shutdown has begun.
pub open spec fn shutdown_begun(phase: LifecyclePhase) -> bool {
    phase == LifecyclePhase::DrainingHttp || phase == LifecyclePhase::DrainingWriter
        || phase == LifecyclePhase::Aborting
}

/// A phase reached only after the database opened.
pub open spec fn after_open(phase: LifecyclePhase) -> bool {
    phase == LifecyclePhase::Replicating || phase == LifecyclePhase::Binding || phase == LifecyclePhase::Serving
        || shutdown_begun(phase)
}

pub open spec fn exits_cleanly<E>(step: LifecycleStep<E>) -> bool {
    step.next matches LifecycleNext::Exit(report) && report.result is Ok
}

pub open spec fn starts_serving<E>(step: LifecycleStep<E>) -> bool {
    step.next matches LifecycleNext::Serve
}

pub open spec fn is_opened<E>(event: LifecycleEvent<E>) -> bool {
    event matches LifecycleEvent::Opened
}

/// The writer is told to stop only when no HTTP task remains: either none
/// is running, or this very step observed its exit. HTTP drains first.
pub proof fn writer_stops_after_http<E>(s: Lifecycle<E>, event: LifecycleEvent<E>)
    ensures
        s.next(event).1.stop_writer ==> !s.next(event).0.http_running,
        s.next(event).1.stop_writer && s.http_running ==> event matches LifecycleEvent::HttpExited(_),
        s.next(event).1.abort_tasks ==> shutdown_begun(s.phase) && event matches LifecycleEvent::DrainTimedOut,
{
}

proof fn lemma_step_begun<E>(s: Lifecycle<E>, event: LifecycleEvent<E>)
    ensures
        s.next(event).1.stop_writer ==> s.next(event).1.begin_shutdown || shutdown_begun(s.phase),
        shutdown_begun(s.next(event).0.phase) ==> s.next(event).1.begin_shutdown || shutdown_begun(s.phase),
{
}

proof fn lemma_begun_run<E>(s: Lifecycle<E>, events: Seq<LifecycleEvent<E>>)
    ensures
        forall|i: int|
            0 <= i < s.run(events).1.len() && (#[trigger] s.run(events).1[i]).stop_writer
                ==> shutdown_begun(s.phase) || exists|j: int| 0 <= j <= i && s.run(events).1[j].begin_shutdown,
    decreases events.len(),
{
    if events.len() > 0 {
        let (after, step) = s.next(events[0]);
        let tail = events.drop_first();
        let steps = s.run(events).1;
        lemma_step_begun(s, events[0]);
        lemma_begun_run(after, tail);
        after.lemma_run_len(tail);
        assert forall|i: int|
            0 <= i < steps.len() && (#[trigger] steps[i]).stop_writer
            implies shutdown_begun(s.phase) || exists|j: int| 0 <= j <= i && steps[j].begin_shutdown by {
            if step.begin_shutdown {
                assert(steps[0].begin_shutdown);
            } else if i > 0 {
                assert(steps[i] == after.run(tail).1[i - 1]);
                if !shutdown_begun(after.phase) {
                    let j = choose|j: int| 0 <= j <= i - 1 && after.run(tail).1[j].begin_shutdown;
                    assert(steps[j + 1] == after.run(tail).1[j]);
                }
            }
        }
    }
}

/// Shutdown always begins (readiness off, HTTP told to stop) no later than
/// the step that tells the writer to stop.
pub proof fn shutdown_begins_before_writer_stops<E>(timeout: u64, events: Seq<LifecycleEvent<E>>)
    ensures
        forall|i: int|
            0 <= i < Lifecycle::<E>::new_spec(timeout).run(events).1.len()
                && (#[trigger] Lifecycle::<E>::new_spec(timeout).run(events).1[i]).stop_writer
                ==> exists|j: int| 0 <= j <= i && Lifecycle::<E>::new_spec(timeout).run(events).1[j].begin_shutdown,
{
    lemma_begun_run(Lifecycle::<E>::new_spec(timeout), events);
}

pub open spec fn passes_barrier<E>(event: LifecycleEvent<E>) -> bool {
    event == LifecycleEvent::<E>::ReplicationReady { requested: false }
}

proof fn lemma_serve_run<E>(s: Lifecycle<E>, events: Seq<LifecycleEvent<E>>)
    ensures
        forall|i: int|
            0 <= i < s.run(events).1.len() && starts_serving(#[trigger] s.run(events).1[i]) ==> {
                &&& events[i] == LifecycleEvent::<E>::ListenerBound { requested: false }
                &&& (s.phase == LifecyclePhase::Binding || exists|j: int| 0 <= j < i && passes_barrier(events[j]))
                &&& (after_open(s.phase) || exists|j: int| 0 <= j < i && is_opened(events[j]))
            },
    decreases events.len(),
{
    if events.len() > 0 {
        let (after, step) = s.next(events[0]);
        let tail = events.drop_first();
        let steps = s.run(events).1;
        lemma_serve_run(after, tail);
        after.lemma_run_len(tail);
        assert(after_open(after.phase) ==> after_open(s.phase) || is_opened(events[0]));
        assert(after.phase == LifecyclePhase::Binding ==> s.phase == LifecyclePhase::Binding || passes_barrier(
            events[0],
        ));
        assert forall|i: int| 0 <= i < steps.len() && starts_serving(#[trigger] steps[i]) implies {
            &&& events[i] == LifecycleEvent::<E>::ListenerBound { requested: false }
            &&& (s.phase == LifecyclePhase::Binding || exists|j: int| 0 <= j < i && passes_barrier(events[j]))
            &&& (after_open(s.phase) || exists|j: int| 0 <= j < i && is_opened(events[j]))
        } by {
            if i > 0 {
                assert(steps[i] == after.run(tail).1[i - 1]);
                assert(events[i] == tail[i - 1]);
                if after.phase != LifecyclePhase::Binding {
                    let j = choose|j: int| 0 <= j < i - 1 && passes_barrier(tail[j]);
                    assert(events[j + 1] == tail[j]);
                } else if s.phase != LifecyclePhase::Binding {
                    assert(passes_barrier(events[0]));
                }
                if !after_open(after.phase) {
                    let j = choose|j: int| 0 <= j < i - 1 && is_opened(tail[j]);
                    assert(events[j + 1] == tail[j]);
                } else if !after_open(s.phase) {
                    assert(is_opened(events[0]));
                }
            }
        }
    }
}

/// HTTP is served only after the database opened, the replication barrier
/// passed with no stop requested, and then the listener was bound with no
/// stop requested: the listener is bound only after the barrier.
pub proof fn serving_follows_preparation<E>(timeout: u64, events: Seq<LifecycleEvent<E>>)
    ensures
        forall|i: int|
            0 <= i < Lifecycle::<E>::new_spec(timeout).run(events).1.len() && starts_serving(
                #[trigger] Lifecycle::<E>::new_spec(timeout).run(events).1[i],
            ) ==> {
                &&& events[i] == LifecycleEvent::<E>::ListenerBound { requested: false }
                &&& exists|j: int| 0 <= j < i && passes_barrier(events[j])
                &&& exists|j: int| 0 <= j < i && is_opened(events[j])
            },
{
    lemma_serve_run(Lifecycle::<E>::new_spec(timeout), events);
}

/// The listener is bound only right after the barrier passed with no stop
/// requested: a step asks to bind exactly on that observation.
pub proof fn binding_follows_barrier<E>(s: Lifecycle<E>, event: LifecycleEvent<E>)
    ensures
        s.next(event).1.next matches LifecycleNext::BindListener ==> s.phase == LifecyclePhase::Replicating
            && passes_barrier(event),
{
}

/// An application that can no longer end successfully.
pub open spec fn doomed<E>(s: Lifecycle<E>) -> bool {
    (s.failure is Some && shutdown_begun(s.phase)) || s.phase == LifecyclePhase::Finished
}

proof fn lemma_doomed_run<E>(s: Lifecycle<E>, events: Seq<LifecycleEvent<E>>)
    requires
        doomed(s),
    ensures
        forall|i: int| 0 <= i < s.run(events).1.len() ==> !exits_cleanly(#[trigger] s.run(events).1[i]),
    decreases events.len(),
{
    if events.len() > 0 {
        let (after, step) = s.next(events[0]);
        let tail = events.drop_first();
        let steps = s.run(events).1;
        assert(doomed(after));
        assert(!exits_cleanly(step));
        lemma_doomed_run(after, tail);
        after.lemma_run_len(tail);
        assert forall|i: int| 0 <= i < steps.len() implies !exits_cleanly(#[trigger] steps[i]) by {
            if i > 0 {
                assert(steps[i] == after.run(tail).1[i - 1]);
            }
        }
    }
}

/// An event that fails the application in the phase it arrives in.
pub open spec fn fails_application<E>(phase: LifecyclePhase, event: LifecycleEvent<E>) -> bool {
    ||| phase == LifecyclePhase::Serving && event matches LifecycleEvent::HttpExited(_)
    ||| phase == LifecyclePhase::Serving && event matches LifecycleEvent::WriterExited(_)
    ||| phase == LifecyclePhase::Replicating && event matches LifecycleEvent::WriterExited(_)
    ||| phase == LifecyclePhase::Replicating && event matches LifecycleEvent::ReplicationFailed(_)
    ||| phase == LifecyclePhase::Binding && event matches LifecycleEvent::WriterExited(_)
    ||| phase == LifecyclePhase::Binding && event matches LifecycleEvent::BindFailed(_)
}

/// Any end of HTTP or of the writer while serving, an end of the writer
/// during startup, and a failed barrier or bind are failures of the
/// application: whatever follows, it never ends successfully.
pub proof fn task_exit_fails_application<E>(s: Lifecycle<E>, events: Seq<LifecycleEvent<E>>)
    requires
        events.len() > 0,
        fails_application(s.phase, events[0]),
    ensures
        forall|i: int| 0 <= i < s.run(events).1.len() ==> !exits_cleanly(#[trigger] s.run(events).1[i]),
{
    let (after, step) = s.next(events[0]);
    let tail = events.drop_first();
    let steps = s.run(events).1;
    assert(doomed(after));
    assert(!exits_cleanly(step));
    lemma_doomed_run(after, tail);
    after.lemma_run_len(tail);
    assert forall|i: int| 0 <= i < steps.len() implies !exits_cleanly(#[trigger] steps[i]) by {
        if i > 0 {
            assert(steps[i] == after.run(tail).1[i - 1]);
        }
    }
}

/// Shutdown is bounded: when draining outlasts the timeout, the tasks are
/// aborted, and the application ends with an error, the timeout's unless an
/// earlier failure is reported first.
pub proof fn drain_timeout_fails<E>(s: Lifecycle<E>)
    requires
        shutdown_begun(s.phase),
        s.phase != LifecyclePhase::Aborting,
    ensures
        ({
            let (aborting, abort) = s.next(LifecycleEvent::DrainTimedOut);
            let (finished, last) = aborting.next(LifecycleEvent::TasksJoined);
            &&& abort.abort_tasks
            &&& finished.phase == LifecyclePhase::Finished
            &&& last.next == match s.failure {
                Some(f) => exit_report(
                    Err(f),
                    Some(AppFailure::ShutdownTimedOut { seconds: s.shutdown_timeout_secs }),
                    None,
                ),
                None => exit_report(Err(AppFailure::ShutdownTimedOut { seconds: s.shutdown_timeout_secs }), None, None),
            }
        }),
{
}

/// A phase in which the application has started and has not begun to shut
/// down: waiting for the barrier, binding, or serving.
pub open spec fn running(phase: LifecyclePhase) -> bool {
    phase == LifecyclePhase::Replicating || phase == LifecyclePhase::Binding || phase == LifecyclePhase::Serving
}

/// A stop signal is honoured in every phase after the database opened and
/// before shutdown: the step begins the shutdown and records no failure;
/// it then waits for HTTP if HTTP runs, else tells the writer to stop and
/// waits for it if the writer runs, else exits. It is never ignored.
pub proof fn stop_is_honoured<E>(s: Lifecycle<E>)
    requires
        running(s.phase),
    ensures
        ({
            let (t, st) = s.next(LifecycleEvent::Requested);
            &&& st.begin_shutdown
            &&& !(st.next is Unchanged)
            &&& t.failure is None
            &&& s.http_running ==> st.next is AwaitHttp && !st.stop_writer
            &&& !s.http_running && s.writer_running ==> st.next is AwaitWriter && st.stop_writer
            &&& !s.http_running && !s.writer_running ==> st.next is Exit && st.stop_writer
        }),
{
}

/// A step that waits for a task has told it to stop: waiting for the writer
/// follows telling the writer to stop, and waiting for HTTP follows the
/// beginning of the shutdown (readiness off, HTTP told to stop).
pub proof fn tasks_awaited_only_after_stop<E>(s: Lifecycle<E>, event: LifecycleEvent<E>)
    ensures
        s.next(event).1.next is AwaitWriter ==> s.next(event).1.stop_writer,
        s.next(event).1.next is AwaitHttp ==> s.next(event).1.begin_shutdown,
{
}

/// The failure reported when the drain ends: the failure that began the
/// shutdown, else how HTTP ended, else how the writer ended.
pub open spec fn drain_result<E>(
    failure: Option<AppFailure<E>>,
    http_failure: Option<AppFailure<E>>,
    writer_failure: Option<AppFailure<E>>,
) -> Result<(), AppFailure<E>> {
    match failure {
        Some(f) => Err(f),
        None => match http_failure {
            Some(h) => Err(h),
            None => match writer_failure {
                Some(w) => Err(w),
                None => Ok(()),
            },
        },
    }
}

/// The end of the drain reports the first failure: when the writer ends,
/// the application exits cleanly exactly when nothing failed (no failure
/// began the shutdown, HTTP ended cleanly, and the writer completed), and
/// otherwise with the earliest failure, a writer failure included.
pub proof fn drain_reports_the_first_failure<E>(s: Lifecycle<E>, x: TaskExit<E>)
    requires
        s.phase == LifecyclePhase::DrainingWriter,
    ensures
        ({
            let st = s.next(LifecycleEvent::WriterExited(x)).1;
            &&& st.next is Exit
            &&& (st.next->Exit_0.result is Ok <==> (s.failure is None && s.http_failure is None
                && x is Completed))
            &&& st.next->Exit_0.result == drain_result(
                s.failure,
                s.http_failure,
                as_app_failure(task_failure_of(Task::DatabaseWriter, x, false)),
            )
            &&& (x matches TaskExit::Failed(e) ==> (s.failure is None && s.http_failure is None
                ==> st.next->Exit_0.result == Err::<(), AppFailure<E>>(
                AppFailure::Task(TaskFailure { task: Task::DatabaseWriter, cause: FailureCause::Failed(e) }),
            )))
        }),
{
}

/// A stop while starting up ends cleanly: with the writer running, no HTTP
/// yet and no failure, a stop followed by the writer's clean end exits with
/// success, after telling the writer to stop.
pub proof fn stop_during_startup_ends_cleanly<E>(s: Lifecycle<E>)
    requires
        s.phase == LifecyclePhase::Replicating || s.phase == LifecyclePhase::Binding,
        s.writer_running,
        !s.http_running,
        s.failure is None,
        s.http_failure is None,
    ensures
        ({
            let (t, first) = s.next(LifecycleEvent::Requested);
            let (u, last) = t.next(LifecycleEvent::WriterExited(TaskExit::Completed));
            &&& first.begin_shutdown && first.stop_writer && first.next is AwaitWriter
            &&& last.next is Exit && last.next->Exit_0.result is Ok
            &&& u.phase == LifecyclePhase::Finished
        }),
{
}

/// A stop while serving ends cleanly: with both tasks running and no
/// failure, the stop drains HTTP, then the writer, and exits with success
/// once both ended cleanly.
pub proof fn stop_while_serving_ends_cleanly<E>(s: Lifecycle<E>)
    requires
        s.phase == LifecyclePhase::Serving,
        s.writer_running,
        s.http_running,
        s.failure is None,
        s.http_failure is None,
    ensures
        ({
            let (t, first) = s.next(LifecycleEvent::Requested);
            let (u, second) = t.next(LifecycleEvent::HttpExited(TaskExit::Completed));
            let (v, last) = u.next(LifecycleEvent::WriterExited(TaskExit::Completed));
            &&& first.begin_shutdown && !first.stop_writer && first.next is AwaitHttp
            &&& second.stop_writer && second.next is AwaitWriter
            &&& last.next is Exit && last.next->Exit_0.result is Ok
            &&& v.phase == LifecyclePhase::Finished
        }),
{
}

/// From the start, whatever the timeout: a stop while waiting for the
/// barrier, then the writer's clean end, exits with success.
pub proof fn stop_before_barrier_exits_cleanly<E>(timeout: u64)
    ensures
        ({
            let s0 = Lifecycle::<E>::new_spec(timeout);
            let (s1, _) = s0.next(LifecycleEvent::Begin { requested: false });
            let (s2, _) = s1.next(LifecycleEvent::Opened);
            let (s3, stop) = s2.next(LifecycleEvent::Requested);
            let (_, last) = s3.next(LifecycleEvent::WriterExited(TaskExit::Completed));
            &&& stop.begin_shutdown && stop.stop_writer
            &&& last.next is Exit && last.next->Exit_0.result is Ok
        }),
{
    let s0 = Lifecycle::<E>::new_spec(timeout);
    let (s1, _) = s0.next(LifecycleEvent::Begin { requested: false });
    let (s2, _) = s1.next(LifecycleEvent::Opened);
    stop_during_startup_ends_cleanly(s2);
}

/// Startup goes forward: a stop already requested ends before anything
/// opens, successfully; otherwise the database is opened; an open failure
/// ends the application with that failure, named as the open step's; an
/// opened database leads to the barrier; a barrier passed with no stop
/// leads to binding; a listener bound with no stop leads to serving.
pub proof fn startup_goes_forward<E>(s: Lifecycle<E>, e: E)
    ensures
        s.phase == LifecyclePhase::Idle ==> {
            let stopped = s.next(LifecycleEvent::Begin { requested: true }).1;
            let begun = s.next(LifecycleEvent::Begin { requested: false }).1;
            &&& stopped.next is Exit && stopped.next->Exit_0.result is Ok && !stopped.stop_writer
            &&& begun.next is OpenDatabase
        },
        s.phase == LifecyclePhase::Opening ==> {
            let failed = s.next(LifecycleEvent::OpenFailed(e)).1;
            &&& s.next(LifecycleEvent::Opened).1.next is AwaitReplication
            &&& s.next(LifecycleEvent::Opened).0.writer_running
            &&& failed.next is Exit && failed.next->Exit_0.result == Err::<(), AppFailure<E>>(
                AppFailure::Startup { stage: StartupStage::OpenDatabase, error: e },
            )
        },
        s.phase == LifecyclePhase::Replicating ==> s.next(LifecycleEvent::ReplicationReady { requested: false }).1.next is BindListener,
        s.phase == LifecyclePhase::Binding ==> {
            let (t, st) = s.next(LifecycleEvent::ListenerBound { requested: false });
            st.next is Serve && t.http_running && t.phase == LifecyclePhase::Serving
        },
{
}

/// How a task's end is judged: a task that completed is a failure exactly
/// when it was expected to keep running; an error or a panic always is,
/// and keeps its cause and the task.
pub proof fn task_endings_judged<E>(task: Task, result: TaskExit<E>, unexpected: bool)
    ensures
        task_failure_of(task, result, unexpected) is None <==> (result is Completed && !unexpected),
        task_failure_of(task, result, unexpected) matches Some(f) ==> f.task == task,
        result is Completed && unexpected ==> task_failure_of(task, result, unexpected) == Some(
            TaskFailure::<E> { task, cause: FailureCause::StoppedUnexpectedly },
        ),
        result matches TaskExit::Failed(e) ==> task_failure_of(task, result, unexpected) == Some(
            TaskFailure::<E> { task, cause: FailureCause::Failed(e) },
        ),
        result matches TaskExit::Panicked(e) ==> task_failure_of(task, result, unexpected) == Some(
            TaskFailure::<E> { task, cause: FailureCause::Panicked(e) },
        ),
{
}

/// When HTTP ends while draining and the writer is already gone, the
/// application exits cleanly exactly when no failure began the shutdown and
/// HTTP completed; with the writer still running, the writer is told to
/// stop and awaited.
pub proof fn http_drain_ends_as_it_should<E>(s: Lifecycle<E>, x: TaskExit<E>)
    requires
        s.phase == LifecyclePhase::DrainingHttp,
    ensures
        ({
            let (t, st) = s.next(LifecycleEvent::HttpExited(x));
            &&& st.stop_writer
            &&& !t.http_running
            &&& s.writer_running ==> st.next is AwaitWriter && t.phase == LifecyclePhase::DrainingWriter
            &&& !s.writer_running ==> st.next is Exit && (st.next->Exit_0.result is Ok <==> (s.failure is None
                && x is Completed))
        }),
{
}

/// The end of the drain is clean only when nothing failed: the exit's result
/// is `Ok` exactly when no failure began the shutdown, HTTP ended cleanly
/// and the writer ended cleanly; otherwise it is the earliest of them.
pub proof fn drain_end_clean_only_when_nothing_failed<E>(s: Lifecycle<E>, writer_failure: Option<AppFailure<E>>)
    ensures
        ({
            let (t, st) = s.finished_with(writer_failure);
            &&& st.next is Exit
            &&& (st.next->Exit_0.result is Ok <==> (s.failure is None && s.http_failure is None
                && writer_failure is None))
            &&& st.next->Exit_0.result == drain_result(s.failure, s.http_failure, writer_failure)
            &&& t.phase == LifecyclePhase::Finished
        }),
{
}

/// A writer that fails while draining after a stop fails the application:
/// from serving, a stop, HTTP's clean end and then the writer's failure
/// exit with that failure, named as the writer's.
pub proof fn writer_failure_after_stop_fails_exit<E>(s: Lifecycle<E>, e: E)
    requires
        s.phase == LifecyclePhase::Serving,
        s.http_running,
        s.writer_running,
    ensures
        ({
            let (t, _) = s.next(LifecycleEvent::Requested);
            let (u, _) = t.next(LifecycleEvent::HttpExited(TaskExit::Completed));
            let (_, last) = u.next(LifecycleEvent::WriterExited(TaskExit::Failed(e)));
            &&& last.next is Exit
            &&& last.next->Exit_0.result == Err::<(), AppFailure<E>>(
                AppFailure::Task(TaskFailure { task: Task::DatabaseWriter, cause: FailureCause::Failed(e) }),
            )
        }),
{
}

/// A stop seen together with the barrier or the bound listener is honoured
/// as a stop: the step is the one a stop signal gives, so nothing more
/// starts.
pub proof fn stop_seen_with_progress_is_honoured<E>(s: Lifecycle<E>)
    ensures
        s.phase == LifecyclePhase::Replicating ==> {
            let st = s.next(LifecycleEvent::ReplicationReady { requested: true });
            &&& st == s.next(LifecycleEvent::Requested)
            &&& st.1.begin_shutdown && !(st.1.next is BindListener) && !(st.1.next is Unchanged)
        },
        s.phase == LifecyclePhase::Binding ==> {
            let st = s.next(LifecycleEvent::ListenerBound { requested: true });
            &&& st == s.next(LifecycleEvent::Requested)
            &&& st.1.begin_shutdown && !(st.1.next is Serve) && !(st.1.next is Unchanged)
        },
{
}

/// A failed barrier or bind shuts the application down and is its result:
/// with the writer running and no HTTP yet, the step begins the shutdown,
/// tells the writer to stop and waits for it; however the writer then ends,
/// the application exits with that startup failure.
pub proof fn startup_failure_is_reported<E>(s: Lifecycle<E>, e: E, x: TaskExit<E>)
    requires
        s.phase == LifecyclePhase::Replicating || s.phase == LifecyclePhase::Binding,
        s.writer_running,
        !s.http_running,
    ensures
        ({
            let stage = if s.phase == LifecyclePhase::Replicating {
                StartupStage::Replication
            } else {
                StartupStage::BindListener
            };
            let event = if s.phase == LifecyclePhase::Replicating {
                LifecycleEvent::ReplicationFailed(e)
            } else {
                LifecycleEvent::BindFailed(e)
            };
            let (t, first) = s.next(event);
            let (_, last) = t.next(LifecycleEvent::WriterExited(x));
            &&& first.begin_shutdown && first.stop_writer && first.next is AwaitWriter
            &&& last.next is Exit
            &&& last.next->Exit_0.result == Err::<(), AppFailure<E>>(AppFailure::Startup { stage, error: e })
        }),
{
}

} // verus!
