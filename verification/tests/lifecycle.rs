use sqlite_web_starter::startup::{
    first_failure, log_ansi, shutdown_timeout_message, task_failure, AppFailure, ConfigError, Configuration,
    ExitReport, FailureCause, Lifecycle, LifecycleEvent, LifecycleNext, LifecyclePhase, Task, TaskExit,
};

fn serving() -> Lifecycle<String> {
    let mut app: Lifecycle<String> = Lifecycle::new(3);
    assert!(matches!(app.step(LifecycleEvent::Begin { requested: false }).next, LifecycleNext::OpenDatabase));
    assert!(matches!(app.step(LifecycleEvent::Opened).next, LifecycleNext::AwaitReplication));
    assert!(matches!(app.step(LifecycleEvent::ReplicationReady { requested: false }).next, LifecycleNext::BindListener));
    assert!(matches!(app.step(LifecycleEvent::ListenerBound { requested: false }).next, LifecycleNext::Serve));
    assert!(app.phase == LifecyclePhase::Serving);
    app
}

fn context(failure: AppFailure<String>) -> String {
    match failure {
        AppFailure::Task(f) => f.context(),
        AppFailure::Startup { stage, error } => format!("{}: {error}", stage.context()),
        AppFailure::ShutdownTimedOut { seconds } => shutdown_timeout_message(seconds),
    }
}

#[test]
fn lifecycle_drains_http_before_stopping_the_writer() {
    let mut app = serving();
    let step = app.step(LifecycleEvent::Requested);
    assert!(step.begin_shutdown);
    assert!(!step.stop_writer, "the writer must outlive HTTP");
    assert!(matches!(step.next, LifecycleNext::AwaitHttp));
    let step = app.step(LifecycleEvent::HttpExited(TaskExit::Completed));
    assert!(step.stop_writer);
    assert!(matches!(step.next, LifecycleNext::AwaitWriter));
    let step = app.step(LifecycleEvent::WriterExited(TaskExit::Completed));
    assert!(matches!(step.next, LifecycleNext::Exit(ExitReport { result: Ok(()), .. })));
}

#[test]
fn lifecycle_fails_when_the_writer_ends_while_serving() {
    let mut app = serving();
    let step = app.step(LifecycleEvent::WriterExited(TaskExit::Panicked("task aborted".to_string())));
    assert!(step.begin_shutdown);
    assert!(matches!(step.next, LifecycleNext::AwaitHttp));
    let step = app.step(LifecycleEvent::HttpExited(TaskExit::Completed));
    assert!(step.stop_writer);
    match step.next {
        LifecycleNext::Exit(ExitReport { result: Err(error), .. }) => {
            let error = context(error);
            assert!(error.contains("database writer"), "{error}");
        },
        _ => panic!("an unexpected writer exit must fail the application"),
    }
}

#[test]
fn lifecycle_fails_and_drains_the_writer_when_http_ends() {
    let mut app = serving();
    let step = app.step(LifecycleEvent::HttpExited(TaskExit::Panicked("task aborted".to_string())));
    assert!(step.begin_shutdown);
    assert!(step.stop_writer);
    assert!(matches!(step.next, LifecycleNext::AwaitWriter));
    match app.step(LifecycleEvent::WriterExited(TaskExit::Completed)).next {
        LifecycleNext::Exit(ExitReport { result: Err(error), .. }) => {
            let error = context(error);
            assert!(error.contains("HTTP"), "{error}");
            assert_eq!(error, "HTTP task panicked or was aborted");
        },
        _ => panic!("an unexpected HTTP exit must fail the application"),
    }
}

#[test]
fn a_stop_before_startup_opens_nothing() {
    let mut app: Lifecycle<String> = Lifecycle::new(25);
    assert!(matches!(app.step(LifecycleEvent::Begin { requested: true }).next, LifecycleNext::Exit(ExitReport { result: Ok(()), .. })));
}

#[test]
fn a_stop_during_preparation_still_drains_the_writer() {
    let mut app: Lifecycle<String> = Lifecycle::new(25);
    app.step(LifecycleEvent::Begin { requested: false });
    app.step(LifecycleEvent::Opened);
    let step = app.step(LifecycleEvent::ReplicationReady { requested: true });
    assert!(step.begin_shutdown && step.stop_writer);
    assert!(matches!(step.next, LifecycleNext::AwaitWriter));
    assert!(matches!(app.step(LifecycleEvent::WriterExited(TaskExit::Completed)).next, LifecycleNext::Exit(ExitReport { result: Ok(()), .. })));
}

#[test]
fn a_failed_preparation_is_reported_before_cleanup_failures() {
    let mut app: Lifecycle<String> = Lifecycle::new(25);
    app.step(LifecycleEvent::Begin { requested: false });
    app.step(LifecycleEvent::Opened);
    app.step(LifecycleEvent::ReplicationReady { requested: false });
    app.step(LifecycleEvent::BindFailed("address in use".to_string()));
    match app.step(LifecycleEvent::WriterExited(TaskExit::Failed("close failed".to_string()))).next {
        LifecycleNext::Exit(ExitReport { result: Err(AppFailure::Startup { stage, error }), discarded, .. }) => {
            assert_eq!((stage.context(), error.as_str()), ("bind HTTP listener", "address in use"));
            // The writer's own failure is reported as an additional failure.
            match discarded {
                Some(AppFailure::Task(f)) => assert_eq!(f.context(), "database writer task failed"),
                _ => panic!("the cleanup failure is kept"),
            }
        },
        _ => panic!("the startup failure comes first"),
    }
}

#[test]
fn a_database_that_cannot_open_ends_startup() {
    let mut app: Lifecycle<String> = Lifecycle::new(25);
    app.step(LifecycleEvent::Begin { requested: false });
    match app.step(LifecycleEvent::OpenFailed("unable to open database file".to_string())).next {
        LifecycleNext::Exit(ExitReport { result: Err(failure), .. }) => {
            assert_eq!(context(failure), "initialize SQLite: unable to open database file")
        },
        _ => panic!("expected the open failure"),
    }
}

#[test]
fn a_drain_that_outlasts_the_timeout_aborts_and_fails() {
    let mut app = serving();
    app.step(LifecycleEvent::Requested);
    let step = app.step(LifecycleEvent::DrainTimedOut);
    assert!(step.abort_tasks);
    assert!(matches!(step.next, LifecycleNext::AwaitAborted));
    match app.step(LifecycleEvent::TasksJoined).next {
        LifecycleNext::Exit(ExitReport { result: Err(error), .. }) => {
            assert_eq!(context(error), "shutdown exceeded 3s; accepted write outcomes may be unknown")
        },
        _ => panic!("a timed-out shutdown fails"),
    }
}

#[test]
fn task_endings_are_judged_by_whether_they_were_expected() {
    assert!(task_failure::<String>(Task::Http, TaskExit::Completed, false).is_none());
    let f = task_failure::<String>(Task::Http, TaskExit::Completed, true).unwrap();
    assert_eq!(f.context(), "HTTP task stopped unexpectedly");
    let f = task_failure(Task::DatabaseWriter, TaskExit::Failed("boom".to_string()), false).unwrap();
    assert!(matches!(f.cause, FailureCause::Failed(ref e) if e == "boom"));
    assert_eq!(f.context(), "database writer task failed");
}

#[test]
fn the_first_failure_wins_and_the_second_is_kept() {
    let both = first_failure::<&str>(Err("a"), Err("b"));
    assert_eq!((both.result, both.discarded), (Err("a"), Some("b")));
    let second = first_failure::<&str>(Ok(()), Err("b"));
    assert_eq!((second.result, second.discarded), (Err("b"), None));
    let first = first_failure::<&str>(Err("a"), Ok(()));
    assert_eq!((first.result, first.discarded), (Err("a"), None));
    let none = first_failure::<&str>(Ok(()), Ok(()));
    assert_eq!((none.result, none.discarded), (Ok(()), None));
}

#[test]
fn a_stop_after_the_barrier_binds_nothing() {
    let mut app: Lifecycle<String> = Lifecycle::new(25);
    app.step(LifecycleEvent::Begin { requested: false });
    app.step(LifecycleEvent::Opened);
    app.step(LifecycleEvent::ReplicationReady { requested: false });
    let step = app.step(LifecycleEvent::ListenerBound { requested: true });
    assert!(step.begin_shutdown && step.stop_writer);
    assert!(matches!(step.next, LifecycleNext::AwaitWriter));
}

#[test]
fn a_failed_barrier_is_a_startup_failure() {
    let mut app: Lifecycle<String> = Lifecycle::new(25);
    app.step(LifecycleEvent::Begin { requested: false });
    app.step(LifecycleEvent::Opened);
    let step = app.step(LifecycleEvent::ReplicationFailed("sync exceeded".to_string()));
    assert!(matches!(step.next, LifecycleNext::AwaitWriter));
    match app.step(LifecycleEvent::WriterExited(TaskExit::Completed)).next {
        LifecycleNext::Exit(ExitReport { result: Err(failure), discarded: None, cleanup_discarded: None }) => {
            assert_eq!(context(failure), "initialize Litestream replication: sync exceeded")
        },
        _ => panic!("a failed barrier fails startup"),
    }
}

#[test]
fn configuration_defaults_and_validation() {
    let c = Configuration::from_values(None, None, None).ok().unwrap();
    assert_eq!(c.sqlite_path, "./data/demo.sqlite");
    assert_eq!(c.port, 3000);
    assert_eq!(c.shutdown_timeout_secs, 25);
    let c = Configuration::from_values(Some("/data/demo.sqlite".into()), Some("8080".into()), Some("5".into())).ok().unwrap();
    assert_eq!((c.sqlite_path.as_str(), c.port, c.shutdown_timeout_secs), ("/data/demo.sqlite", 8080, 5));
    assert!(Configuration::from_values(None, Some("70000".into()), None).err() == Some(ConfigError::InvalidPort));
    assert!(Configuration::from_values(None, None, Some("soon".into())).err() == Some(ConfigError::InvalidShutdownTimeout));
    assert!(Configuration::from_values(None, None, Some("0".into())).err() == Some(ConfigError::NonPositiveShutdownTimeout));
    assert_eq!(ConfigError::NonPositiveShutdownTimeout.message(), "SHUTDOWN_TIMEOUT_SECONDS must be positive");
}

#[test]
fn log_colors_follow_the_style_then_the_terminal() {
    assert!(log_ansi(Some("always".into()), false, Some(false)));
    assert!(!log_ansi(Some("never".into()), true, None));
    assert!(log_ansi(Some("auto".into()), true, None));
    assert!(log_ansi(None, true, Some(true)));
    assert!(!log_ansi(None, true, Some(false)));
    assert!(!log_ansi(None, false, None));
}
