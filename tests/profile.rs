use addwatermark::error::RunError;
use addwatermark::profile::{build_profile, default_profile, EncoderConfig, UNBOUNDED};

#[test]
fn build_profile_from_targets() {
    let p = build_profile("audio/x-vorbis", "video/x-theora", "video/x-matroska").unwrap();
    assert_eq!(p.name, "container");
    assert_eq!(p.container, "video/x-matroska");
    assert_eq!(p.audio.format, "audio/x-vorbis");
    assert_eq!(p.video.format, "video/x-theora");
    assert_eq!(p.audio.presence, UNBOUNDED);
    assert_eq!(p.video.presence, 0);
}

#[test]
fn build_profile_twice_gives_equal_profiles() {
    let a = build_profile("audio/mpeg", "video/x-h264", "video/quicktime").unwrap();
    let b = build_profile("audio/mpeg", "video/x-h264", "video/quicktime").unwrap();
    assert!(a == b);
    let c = build_profile("audio/mpeg", "video/x-h265", "video/quicktime").unwrap();
    assert!(a != c);
}

#[test]
fn build_profile_refuses_mismatched_targets() {
    assert!(matches!(build_profile("video/x-theora", "video/x-theora", "video/x-matroska"), Err(RunError::ProfileBuildFailed)));
    assert!(matches!(build_profile("audio/x-vorbis", "audio/x-vorbis", "video/x-matroska"), Err(RunError::ProfileBuildFailed)));
    assert!(matches!(build_profile("audio/x-vorbis", "video/x-theora", ""), Err(RunError::ProfileBuildFailed)));
    assert!(matches!(build_profile("", "video/x-theora", "video/x-matroska"), Err(RunError::ProfileBuildFailed)));
}

#[test]
fn default_profile_targets() {
    let p = default_profile();
    assert_eq!(p.audio.format, "audio/x-vorbis");
    assert_eq!(p.video.format, "video/x-theora");
    assert_eq!(p.container, "video/x-matroska");
    assert!(p == build_profile("audio/x-vorbis", "video/x-theora", "video/x-matroska").unwrap());
}

#[test]
fn profile_applied_at_most_once() {
    let mut e = EncoderConfig::new();
    assert!(!e.is_configured());
    assert!(e.apply(default_profile(), false).is_ok());
    assert!(e.is_configured());
    assert!(matches!(e.apply(default_profile(), false), Err(RunError::ProfileAlreadyApplied)));
}

#[test]
fn profile_refused_while_running() {
    let mut e = EncoderConfig::new();
    assert!(matches!(e.apply(default_profile(), true), Err(RunError::ProfileAlreadyApplied)));
    assert!(!e.is_configured());
}
