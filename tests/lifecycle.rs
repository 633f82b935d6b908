use addwatermark::error::RunError;
use addwatermark::lifecycle::{BusEvent, DriverAction, Lifecycle, RunState, SetupStep, SETUP_STEPS};
use addwatermark::media::ElementType;

/// Runs the setup, failing the step `fail_at` when given; returns the steps seen.
fn setup(l: &mut Lifecycle, fail_at: Option<usize>) -> Vec<SetupStep> {
    let mut seen = Vec::new();
    while let Some(s) = l.next_setup_step() {
        let ok = fail_at != Some(seen.len());
        seen.push(s);
        l.report_setup(ok);
    }
    seen
}

#[test]
fn setup_then_running() {
    let mut l = Lifecycle::new();
    assert_eq!(l.run_state(), RunState::Null);
    let seen = setup(&mut l, None);
    assert_eq!(seen.len(), SETUP_STEPS);
    assert_eq!(seen[0], SetupStep::Make(ElementType::UriDecodeBin));
    assert_eq!(seen[6], SetupStep::LoadOverlay);
    assert_eq!(seen[11], SetupStep::ConnectRouter);
    assert_eq!(seen[12], SetupStep::RequestPlaying);
    assert_eq!(l.run_state(), RunState::Playing);
    assert!(!l.is_finished());
}

#[test]
fn ready_before_play_request() {
    let mut l = Lifecycle::new();
    for _ in 0..SETUP_STEPS - 1 {
        l.report_setup(true);
    }
    assert_eq!(l.run_state(), RunState::Ready);
    assert_eq!(l.next_setup_step(), Some(SetupStep::RequestPlaying));
}

#[test]
fn end_of_stream_succeeds() {
    let mut l = Lifecycle::new();
    setup(&mut l, None);
    let old = RunState::Paused;
    assert_eq!(l.on_event(BusEvent::StateChanged { old, current: RunState::Playing }), DriverAction::WaitNext);
    assert_eq!(l.on_event(BusEvent::Other), DriverAction::WaitNext);
    assert_eq!(l.on_event(BusEvent::Eos), DriverAction::Stop);
    assert_eq!(l.run_state(), RunState::Null);
    assert!(matches!(l.result(), Some(Ok(()))));
}

#[test]
fn missing_input_fails_with_engine_error() {
    let mut l = Lifecycle::new();
    setup(&mut l, None);
    let ev = BusEvent::Error {
        source: String::from("/GstPipeline:pipeline0/GstURIDecodeBin:src"),
        message: String::from("Resource not found."),
    };
    assert_eq!(l.on_event(ev), DriverAction::Stop);
    assert!(l.is_finished());
    match l.result() {
        Some(Err(RunError::EngineFatal { source, message })) => {
            assert_eq!(source, "/GstPipeline:pipeline0/GstURIDecodeBin:src");
            assert_eq!(message, "Resource not found.");
        }
        _ => panic!("expected an engine error"),
    }
}

#[test]
fn missing_overlay_fails_before_playing() {
    let mut l = Lifecycle::new();
    let seen = setup(&mut l, Some(6));
    assert_eq!(seen.len(), 7);
    assert!(!seen.contains(&SetupStep::RequestPlaying));
    assert_eq!(l.run_state(), RunState::Null);
    assert!(matches!(l.result(), Some(Err(RunError::OverlayUnreadable))));
}

#[test]
fn setup_errors_by_step() {
    let mut l = Lifecycle::new();
    setup(&mut l, Some(1));
    assert!(matches!(l.result(), Some(Err(RunError::UnavailableElement(ElementType::EncodeBin)))));
    let mut l = Lifecycle::new();
    setup(&mut l, Some(4));
    assert!(matches!(l.result(), Some(Err(RunError::NoFileName))));
    let mut l = Lifecycle::new();
    setup(&mut l, Some(8));
    assert!(matches!(l.result(), Some(Err(RunError::ProfileBuildFailed))));
    let mut l = Lifecycle::new();
    setup(&mut l, Some(12));
    assert!(matches!(l.result(), Some(Err(RunError::EngineStateRejected))));
}
