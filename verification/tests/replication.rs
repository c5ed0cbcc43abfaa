use sqlite_web_starter::replication::{RETRY_PAUSE_MS, SYNC_TIMEOUT_SECS, BarrierError, BarrierEvent, BarrierNext, BarrierPhase, SyncBarrier};

fn barrier() -> SyncBarrier {
    SyncBarrier::configure(Some(false), None).ok().unwrap().unwrap()
}

#[test]
fn the_barrier_is_configured_from_the_socket_and_the_timeout() {
    assert!(matches!(SyncBarrier::configure(None, Some("x".into())), Ok(None)));
    assert!(matches!(SyncBarrier::configure(Some(true), None), Err(BarrierError::EmptySocket)));
    assert!(matches!(SyncBarrier::configure(Some(false), Some("0".into())), Err(BarrierError::NonPositiveTimeout)));
    assert!(matches!(SyncBarrier::configure(Some(false), Some("-1".into())), Err(BarrierError::InvalidTimeout)));
    let b = barrier();
    assert_eq!(b.timeout_secs, 60);
    assert_eq!(b.last_error, "no sync completed");
    assert!(b.phase == BarrierPhase::Syncing);
    let b = SyncBarrier::configure(Some(false), Some("5".into())).ok().unwrap().unwrap();
    assert_eq!(b.timeout_secs, 5);
}

#[test]
fn only_a_replicated_nonzero_transaction_passes() {
    let mut b = barrier();
    assert!(matches!(b.step(BarrierEvent::SyncReported { txid: 0, replica_txid: 0 }), BarrierNext::WaitRetry));
    assert_eq!(b.last_error, "incomplete sync: local txid 0, replica txid 0");
    assert!(matches!(b.step(BarrierEvent::RetryElapsed), BarrierNext::RunSync));
    assert!(matches!(b.step(BarrierEvent::SyncReported { txid: 4, replica_txid: 3 }), BarrierNext::WaitRetry));
    assert_eq!(b.last_error, "incomplete sync: local txid 4, replica txid 3");
    b.step(BarrierEvent::RetryElapsed);
    assert!(matches!(b.step(BarrierEvent::SyncReported { txid: 4, replica_txid: 4 }), BarrierNext::Done(Ok(()))));
    assert!(matches!(b.step(BarrierEvent::RetryElapsed), BarrierNext::Unchanged));
}

#[test]
fn the_deadline_fails_with_the_last_error() {
    let mut b = barrier();
    assert!(matches!(b.step(BarrierEvent::SyncFailed { stderr: "  socket refused\n".into() }), BarrierNext::WaitRetry));
    assert_eq!(b.last_error, "socket refused");
    match b.step(BarrierEvent::DeadlineReached) {
        BarrierNext::Done(Err(e)) => assert_eq!(e.message(), "Litestream startup sync exceeded 60s: socket refused"),
        _ => panic!("elapsed time never grants readiness"),
    }
}

#[test]
fn a_stop_ends_the_barrier_without_error() {
    let mut b = barrier();
    b.step(BarrierEvent::SyncFailed { stderr: "x".into() });
    assert!(matches!(b.step(BarrierEvent::ShutdownRequested), BarrierNext::Done(Ok(()))));
}

#[test]
fn command_and_response_failures_end_the_barrier() {
    let mut b = barrier();
    match b.step(BarrierEvent::CommandError) {
        BarrierNext::Done(Err(e)) => assert_eq!(e.message(), "run litestream sync"),
        _ => panic!(),
    }
    let mut b = barrier();
    match b.step(BarrierEvent::InvalidResponse) {
        BarrierNext::Done(Err(e)) => assert_eq!(e.message(), "invalid litestream sync response"),
        _ => panic!(),
    }
}

#[test]
fn retries_pause_and_each_sync_is_bounded() {
    assert_eq!(RETRY_PAUSE_MS, 200);
    assert_eq!(SYNC_TIMEOUT_SECS, 5);
}
