use addwatermark::error::RunError;
use addwatermark::naming::{output_file_name, watermarked_name};

#[test]
fn output_name_keeps_extension() {
    assert_eq!(output_file_name("clip.mp4").unwrap(), "clip.watermark.mp4");
}

#[test]
fn output_name_of_video_only_input() {
    assert_eq!(output_file_name("silent.mp4").unwrap(), "silent.watermark.mp4");
}

#[test]
fn output_name_drops_directories() {
    assert_eq!(output_file_name("/videos/holiday/clip.mp4").unwrap(), "clip.watermark.mp4");
    assert_eq!(output_file_name("videos/clip.mkv/").unwrap(), "clip.watermark.mkv");
}

#[test]
fn output_name_without_extension() {
    assert_eq!(output_file_name("clip").unwrap(), "clip.watermark");
}

#[test]
fn output_name_of_hidden_file() {
    assert_eq!(output_file_name(".clip").unwrap(), ".clip.watermark");
    assert_eq!(output_file_name(".clip.mp4").unwrap(), ".clip.watermark.mp4");
}

#[test]
fn output_name_splits_at_last_dot() {
    assert_eq!(output_file_name("a.tar.gz").unwrap(), "a.tar.watermark.gz");
    assert_eq!(output_file_name("clip.").unwrap(), "clip.watermark.");
}

#[test]
fn output_name_refuses_paths_without_file_name() {
    assert!(matches!(output_file_name("/"), Err(RunError::NoFileName)));
    assert!(matches!(output_file_name("videos/.."), Err(RunError::NoFileName)));
    assert!(matches!(output_file_name(""), Err(RunError::NoFileName)));
}

#[test]
fn watermarked_name_of_file_name() {
    assert_eq!(watermarked_name("clip.mp4"), "clip.watermark.mp4");
    assert_eq!(watermarked_name("logo"), "logo.watermark");
    assert_eq!(watermarked_name("süß.webm"), "süß.watermark.webm");
}
