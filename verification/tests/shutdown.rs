use tinyaudio::backend::BackendKind;
use tinyaudio::shutdown::{Shutdown, ShutdownStep};
use tinyaudio::FatalError;

/// Runs a shutdown to its end and returns the steps that it asked for.
fn run(shutdown: &mut Shutdown, feeder_result: Option<FatalError>, references_left: u32) -> Vec<ShutdownStep> {
    let mut steps = Vec::new();
    let mut step = shutdown.step();
    while step != ShutdownStep::Done {
        steps.push(step);
        assert!(steps.len() <= 3, "the shutdown does not end");
        step = match step {
            ShutdownStep::LowerFlag => shutdown.flag_lowered(),
            ShutdownStep::JoinFeeder => shutdown.feeder_joined(feeder_result),
            ShutdownStep::StopStream => shutdown.stream_stopped(),
            ShutdownStep::Release => shutdown.released(references_left),
            ShutdownStep::Done => unreachable!(),
        };
    }
    steps
}

#[test]
fn session_with_a_feeder_is_joined_before_it_is_released() {
    for kind in [BackendKind::LockStepDoubleBuffer, BackendKind::PollingFeeder] {
        let mut shutdown = Shutdown::new(kind);
        assert!(shutdown.flag());
        let steps = run(&mut shutdown, None, 0);
        assert_eq!(
            steps,
            vec![ShutdownStep::LowerFlag, ShutdownStep::JoinFeeder, ShutdownStep::Release]
        );
        assert!(shutdown.is_done());
        assert!(!shutdown.flag());
        assert_eq!(shutdown.outcome(), None);
    }
}

#[test]
fn native_thread_is_stopped_before_the_stream_is_released() {
    let mut shutdown = Shutdown::new(BackendKind::FreeRunningCallback);
    let steps = run(&mut shutdown, None, 0);
    assert_eq!(steps, vec![ShutdownStep::StopStream, ShutdownStep::Release]);
    assert!(shutdown.is_done());
}

#[test]
fn streaming_session_is_done_once_its_feeder_has_gone() {
    let mut shutdown = Shutdown::new(BackendKind::StreamingWriteAhead);
    let steps = run(&mut shutdown, None, 0);
    assert_eq!(steps, vec![ShutdownStep::LowerFlag, ShutdownStep::JoinFeeder]);
    assert!(shutdown.is_done());
}

#[test]
fn fatal_error_of_the_feeder_is_found_at_the_join() {
    let mut shutdown = Shutdown::new(BackendKind::PollingFeeder);
    run(&mut shutdown, Some(FatalError::RetriesExhausted { code: -32 }), 0);
    assert_eq!(shutdown.outcome(), Some(FatalError::RetriesExhausted { code: -32 }));

    let mut shutdown = Shutdown::new(BackendKind::StreamingWriteAhead);
    run(&mut shutdown, Some(FatalError::ProducerFailed), 0);
    assert_eq!(shutdown.outcome(), Some(FatalError::ProducerFailed));
}

#[test]
fn references_left_on_a_released_device_are_a_fatal_error() {
    let mut shutdown = Shutdown::new(BackendKind::LockStepDoubleBuffer);
    run(&mut shutdown, None, 2);
    assert!(shutdown.is_done());
    assert_eq!(shutdown.outcome(), Some(FatalError::StillReferenced { count: 2 }));
}

#[test]
fn first_fatal_error_is_kept() {
    let mut shutdown = Shutdown::new(BackendKind::LockStepDoubleBuffer);
    run(&mut shutdown, Some(FatalError::ProducerFailed), 1);
    assert_eq!(shutdown.outcome(), Some(FatalError::ProducerFailed));
}

#[test]
fn report_out_of_turn_changes_nothing() {
    let mut shutdown = Shutdown::new(BackendKind::PollingFeeder);
    assert_eq!(shutdown.released(0), ShutdownStep::LowerFlag);
    assert_eq!(shutdown.feeder_joined(Some(FatalError::ProducerFailed)), ShutdownStep::LowerFlag);
    assert_eq!(shutdown.stream_stopped(), ShutdownStep::LowerFlag);
    assert!(shutdown.flag());
    assert_eq!(shutdown.outcome(), None);
    assert_eq!(shutdown.flag_lowered(), ShutdownStep::JoinFeeder);
    assert_eq!(shutdown.flag_lowered(), ShutdownStep::JoinFeeder);
    assert_eq!(shutdown.released(0), ShutdownStep::JoinFeeder);
    assert!(!shutdown.flag());
}

#[test]
fn flag_stays_down_once_it_is_lowered() {
    let mut shutdown = Shutdown::new(BackendKind::PollingFeeder);
    shutdown.flag_lowered();
    assert!(!shutdown.flag());
    shutdown.feeder_joined(None);
    assert!(!shutdown.flag());
    shutdown.released(0);
    assert!(!shutdown.flag());
    shutdown.flag_lowered();
    shutdown.stream_stopped();
    assert!(!shutdown.flag());
}

#[test]
fn shutdown_that_is_done_stays_done() {
    let mut shutdown = Shutdown::new(BackendKind::FreeRunningCallback);
    run(&mut shutdown, None, 0);
    assert_eq!(shutdown.flag_lowered(), ShutdownStep::Done);
    assert_eq!(shutdown.feeder_joined(Some(FatalError::OutOfOrder)), ShutdownStep::Done);
    assert_eq!(shutdown.stream_stopped(), ShutdownStep::Done);
    assert_eq!(shutdown.released(9), ShutdownStep::Done);
    assert_eq!(shutdown.outcome(), None);
}

#[test]
fn kinds_of_session_differ_in_who_owns_the_thread() {
    assert!(BackendKind::LockStepDoubleBuffer.owns_feeder_thread());
    assert!(BackendKind::PollingFeeder.owns_feeder_thread());
    assert!(BackendKind::StreamingWriteAhead.owns_feeder_thread());
    assert!(!BackendKind::FreeRunningCallback.owns_feeder_thread());
    assert!(BackendKind::LockStepDoubleBuffer.releases_after_feeder());
    assert!(BackendKind::PollingFeeder.releases_after_feeder());
    assert!(BackendKind::FreeRunningCallback.releases_after_feeder());
    assert!(!BackendKind::StreamingWriteAhead.releases_after_feeder());
}
