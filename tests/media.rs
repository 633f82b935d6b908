use addwatermark::error::RunError;
use addwatermark::media::{acquired, chars_of, classify, starts_with, ElementType, MediaKind};

#[test]
fn classify_audio_and_video() {
    assert_eq!(classify("audio/x-raw"), MediaKind::Audio);
    assert_eq!(classify("video/x-raw"), MediaKind::Video);
    assert_eq!(classify("audio/"), MediaKind::Audio);
}

#[test]
fn classify_other_kinds_as_unknown() {
    assert_eq!(classify("text/x-raw"), MediaKind::Unknown);
    assert_eq!(classify("audio"), MediaKind::Unknown);
    assert_eq!(classify("Video/x-raw"), MediaKind::Unknown);
    assert_eq!(classify(""), MediaKind::Unknown);
}

#[test]
fn prefix_test() {
    let s = chars_of("video/x-h264");
    assert!(starts_with(&s, &chars_of("video/")));
    assert!(starts_with(&s, &chars_of("")));
    assert!(!starts_with(&s, &chars_of("audio/")));
    assert!(!starts_with(&chars_of("vid"), &chars_of("video/")));
}

#[test]
fn factory_names() {
    assert_eq!(ElementType::UriDecodeBin.factory_name(), "uridecodebin");
    assert_eq!(ElementType::EncodeBin.factory_name(), "encodebin");
    assert_eq!(ElementType::FileSink.factory_name(), "filesink");
    assert_eq!(ElementType::PixbufOverlay.factory_name(), "gdkpixbufoverlay");
    assert_eq!(ElementType::Queue.factory_name(), "queue");
    assert_eq!(ElementType::AudioConvert.factory_name(), "audioconvert");
    assert_eq!(ElementType::AudioResample.factory_name(), "audioresample");
    assert_eq!(ElementType::VideoConvert.factory_name(), "videoconvert");
    assert_eq!(ElementType::VideoScale.factory_name(), "videoscale");
}

#[test]
fn factory_answer() {
    assert_eq!(acquired(ElementType::Queue, Some(7u8)).unwrap(), 7);
    assert!(matches!(
        acquired::<u8>(ElementType::AudioResample, None),
        Err(RunError::UnavailableElement(ElementType::AudioResample))
    ));
}
