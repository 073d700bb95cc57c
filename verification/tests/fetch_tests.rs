use mrpack_downloader::fetch::{
    run_mirrors, AttemptEvent, DownloadStatus, FetchState, MirrorFailure,
};

fn transport(reason: &str) -> AttemptEvent {
    AttemptEvent::Failed(MirrorFailure::Transport(String::from(reason)))
}

fn write_failure(reason: &str) -> AttemptEvent {
    AttemptEvent::Failed(MirrorFailure::Write(reason.to_string()))
}

#[test]
fn fallback_succeeds_on_third_mirror() {
    let events = vec![transport("refused"), transport("timeout"), AttemptEvent::Delivered];
    match run_mirrors(3, &events) {
        DownloadStatus::Success { mirror } => assert_eq!(mirror, 2),
        DownloadStatus::Failed { .. } => panic!("entry should succeed"),
    }
}

#[test]
fn first_mirror_wins_when_reachable() {
    let events = vec![AttemptEvent::Delivered, transport("never tried")];
    match run_mirrors(2, &events) {
        DownloadStatus::Success { mirror } => assert_eq!(mirror, 0),
        DownloadStatus::Failed { .. } => panic!("entry should succeed"),
    }
}

#[test]
fn all_mirrors_unreachable_fails_with_reasons() {
    let events = vec![transport("refused"), write_failure("disk full"), transport("timeout")];
    match run_mirrors(3, &events) {
        DownloadStatus::Success { .. } => panic!("entry should fail"),
        DownloadStatus::Failed { reasons } => {
            assert_eq!(reasons.len(), 3);
            assert!(!reasons.is_empty());
            assert!(matches!(&reasons[0], MirrorFailure::Transport(s) if s == "refused"));
            assert!(matches!(&reasons[1], MirrorFailure::Write(s) if s == "disk full"));
            assert!(matches!(&reasons[2], MirrorFailure::Transport(s) if s == "timeout"));
        },
    }
}

#[test]
fn no_mirrors_fails_with_no_reason() {
    let events: Vec<AttemptEvent> = Vec::new();
    match run_mirrors(0, &events) {
        DownloadStatus::Success { .. } => panic!("entry cannot succeed without a mirror"),
        DownloadStatus::Failed { reasons } => assert_eq!(reasons.len(), 0),
    }
}

#[test]
fn machine_walks_mirrors_in_order() {
    let state = FetchState::new(3);
    assert_eq!(state.current_mirror(), Some(0));
    let state = state.step(transport("refused"));
    assert_eq!(state.current_mirror(), Some(1));
    let state = state.step(AttemptEvent::Delivered);
    assert_eq!(state.current_mirror(), None);
    match state.into_status() {
        DownloadStatus::Success { mirror } => assert_eq!(mirror, 1),
        DownloadStatus::Failed { .. } => panic!("machine should have succeeded"),
    }
}

#[test]
fn machine_exhausts_after_last_mirror() {
    let state = FetchState::new(2);
    let state = state.step(transport("a"));
    assert_eq!(state.current_mirror(), Some(1));
    let state = state.step(write_failure("b"));
    assert_eq!(state.current_mirror(), None);
    match state.into_status() {
        DownloadStatus::Success { .. } => panic!("machine should have failed"),
        DownloadStatus::Failed { reasons } => {
            assert_eq!(reasons.len(), 2);
            assert!(matches!(&reasons[0], MirrorFailure::Transport(s) if s == "a"));
            assert!(matches!(&reasons[1], MirrorFailure::Write(s) if s == "b"));
        },
    }
}

#[test]
fn machine_with_no_mirror_starts_exhausted() {
    let state = FetchState::new(0);
    assert_eq!(state.current_mirror(), None);
    match state.into_status() {
        DownloadStatus::Success { .. } => panic!("nothing to succeed with"),
        DownloadStatus::Failed { reasons } => assert!(reasons.is_empty()),
    }
}
