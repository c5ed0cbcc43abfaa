use sqlite_web_starter::database::{
    increment, is_ready, WriteError, WriterEvent, WriterFailure, WriterLoop, WriterNext, WriterPhase,
};

fn expect_reply(step: &sqlite_web_starter::database::WriterStep<String>, value: i64) {
    match &step.reply {
        Some(Ok(v)) => assert_eq!(*v, value),
        _ => panic!("expected a committed reply"),
    }
}

#[test]
fn rejected_admission_is_unavailable_and_a_lost_reply_is_unknown() {
    assert!(matches!(increment(false, None), Err(WriteError::Unavailable)));
    assert!(matches!(increment(true, None), Err(WriteError::OutcomeUnknown)));
    assert!(matches!(increment(true, Some(Ok(7))), Ok(7)));
    match increment(true, Some(Err("disk I/O error".to_string()))) {
        Err(WriteError::Database(message)) => assert_eq!(message, "disk I/O error"),
        _ => panic!("expected a database error"),
    }
}

#[test]
fn writer_replies_with_the_committed_value() {
    // The writer replies only with the value its transaction committed.
    let mut writer: WriterLoop<String> = WriterLoop::new();
    assert!(matches!(writer.step(WriterEvent::Received).next, WriterNext::Execute));
    let step = writer.step(WriterEvent::Committed(1));
    expect_reply(&step, 1);
    assert!(matches!(step.next, WriterNext::Receive { watch_shutdown: true }));
    assert!(matches!(increment(true, step.reply), Ok(1)));
}

#[test]
fn each_command_is_executed_before_its_reply() {
    let mut writer: WriterLoop<String> = WriterLoop::new();
    for value in 1..=64 {
        let step = writer.step(WriterEvent::Received);
        assert!(step.reply.is_none());
        assert!(matches!(step.next, WriterNext::Execute));
        let step = writer.step(WriterEvent::Committed(value));
        expect_reply(&step, value);
    }
    assert!(writer.phase == WriterPhase::Accepting);
}

#[test]
fn writer_drains_admitted_commands_after_shutdown() {
    // Four commands were admitted before shutdown; a fifth found the queue full.
    assert!(matches!(increment(false, None), Err(WriteError::Unavailable)));
    let mut writer: WriterLoop<String> = WriterLoop::new();
    let step = writer.step(WriterEvent::ShutdownRequested);
    assert!(step.close_queue);
    assert!(matches!(step.next, WriterNext::Receive { watch_shutdown: false }));
    for value in 1..=4 {
        assert!(matches!(writer.step(WriterEvent::Received).next, WriterNext::Execute));
        let step = writer.step(WriterEvent::Committed(value));
        // The first caller went away; its write still committed as 1.
        expect_reply(&step, value);
        assert!(matches!(step.next, WriterNext::Receive { watch_shutdown: false }));
    }
    assert!(matches!(writer.step(WriterEvent::ChannelEnded).next, WriterNext::Teardown));
    assert!(matches!(writer.step(WriterEvent::Closed(Ok(()))).next, WriterNext::Finish(Ok(()))));
    assert!(writer.phase == WriterPhase::Stopped);
}

#[test]
fn an_unexpected_end_of_the_queue_fails_the_writer() {
    let mut writer: WriterLoop<String> = WriterLoop::new();
    assert!(matches!(writer.step(WriterEvent::ChannelEnded).next, WriterNext::Teardown));
    let step = writer.step(WriterEvent::Closed(Ok(())));
    match step.next {
        WriterNext::Finish(Err(failure)) => assert_eq!(failure.message(), Some("writer channel closed unexpectedly")),
        _ => panic!("an early end of the queue fails the writer"),
    }
}

#[test]
fn a_failed_write_is_answered_and_stops_the_writer() {
    let mut writer: WriterLoop<String> = WriterLoop::new();
    writer.step(WriterEvent::Received);
    let step = writer.step(WriterEvent::Failed { message: "database is locked".to_string(), error: "locked".to_string() });
    match &step.reply {
        Some(Err(message)) => assert_eq!(message, "database is locked"),
        _ => panic!("expected an error reply"),
    }
    assert!(matches!(step.next, WriterNext::Teardown));
    match writer.step(WriterEvent::Closed(Err("close".to_string()))).next {
        WriterNext::Finish(Err(WriterFailure::Database(e))) => {
            assert_eq!(e, "locked");
            assert_eq!(WriterFailure::Database(e).message(), None);
        },
        _ => panic!("the write failure must be reported first"),
    }
}

#[test]
fn a_failed_close_after_a_clean_drain_is_reported() {
    let mut writer: WriterLoop<String> = WriterLoop::new();
    writer.step(WriterEvent::ShutdownRequested);
    writer.step(WriterEvent::ChannelEnded);
    match writer.step(WriterEvent::Closed(Err("close".to_string()))).next {
        WriterNext::Finish(Err(WriterFailure::Close(e))) => assert_eq!(e, "close"),
        _ => panic!("expected the close failure"),
    }
    // A stopped writer ignores further events.
    assert!(matches!(writer.step(WriterEvent::Received).next, WriterNext::Unchanged));
}

#[test]
fn readiness_needs_the_flag_an_open_queue_and_a_readable_counter() {
    assert!(is_ready(true, false, true));
    assert!(!is_ready(false, false, true));
    assert!(!is_ready(true, true, true));
    assert!(!is_ready(true, false, false));
}
