use addwatermark::branch::{BranchAction, BranchBuilder, BranchStatus, StreamOutcome, BRANCH_STEPS};
use addwatermark::error::RunError;
use addwatermark::media::{ElementType, MediaKind};

fn run(kind: MediaKind, fail_at: Option<usize>) -> (Vec<BranchAction>, BranchBuilder) {
    let mut b = BranchBuilder::new(kind);
    let mut seen = Vec::new();
    while let Some(a) = b.next_action() {
        let ok = fail_at != Some(seen.len());
        seen.push(a);
        b.report(ok);
    }
    (seen, b)
}

#[test]
fn audio_branch_steps_in_order() {
    let (seen, b) = run(MediaKind::Audio, None);
    assert_eq!(
        seen,
        vec![
            BranchAction::Make(ElementType::Queue),
            BranchAction::Make(ElementType::AudioConvert),
            BranchAction::Make(ElementType::AudioResample),
            BranchAction::AddAndLinkChain,
            BranchAction::RequestPort,
            BranchAction::LinkToEncoder,
            BranchAction::SyncStates,
            BranchAction::LinkSource,
        ]
    );
    assert_eq!(seen.len(), BRANCH_STEPS);
    assert_eq!(b.status(), BranchStatus::Complete);
    assert_eq!(b.outcome(), Some(StreamOutcome::Built(MediaKind::Audio)));
    assert!(b.failure().is_none());
    assert_eq!(b.pad_template(), "audio_%u");
}

#[test]
fn video_branch_steps_in_order() {
    let (seen, b) = run(MediaKind::Video, None);
    assert_eq!(seen[1], BranchAction::Make(ElementType::VideoConvert));
    assert_eq!(seen[2], BranchAction::Make(ElementType::VideoScale));
    assert_eq!(seen[7], BranchAction::LinkSource);
    assert_eq!(b.outcome(), Some(StreamOutcome::Built(MediaKind::Video)));
    assert_eq!(b.pad_template(), "video_%u");
    assert_eq!(b.kind(), MediaKind::Video);
}

#[test]
fn denied_port_abandons_branch() {
    let (seen, b) = run(MediaKind::Audio, Some(4));
    assert_eq!(seen.len(), 5);
    assert_eq!(b.status(), BranchStatus::Abandoned(BranchAction::RequestPort));
    assert!(matches!(b.failure(), Some(RunError::PortRequestDenied)));
    assert_eq!(b.outcome(), Some(StreamOutcome::Abandoned(MediaKind::Audio, BranchAction::RequestPort)));
}

#[test]
fn missing_element_abandons_branch() {
    let (_, b) = run(MediaKind::Video, Some(2));
    assert!(matches!(b.failure(), Some(RunError::UnavailableElement(ElementType::VideoScale))));
}

#[test]
fn link_and_sync_failures() {
    let (_, b) = run(MediaKind::Video, Some(7));
    assert!(matches!(b.failure(), Some(RunError::LinkFailed)));
    let (_, b) = run(MediaKind::Audio, Some(6));
    assert!(matches!(b.failure(), Some(RunError::EngineStateRejected)));
    let (_, b) = run(MediaKind::Audio, Some(3));
    assert!(matches!(b.failure(), Some(RunError::LinkFailed)));
}

#[test]
fn builder_in_progress_has_no_outcome() {
    let mut b = BranchBuilder::new(MediaKind::Audio);
    assert_eq!(b.outcome(), None);
    b.report(true);
    assert_eq!(b.status(), BranchStatus::Building);
    assert_eq!(b.next_action(), Some(BranchAction::Make(ElementType::AudioConvert)));
}
