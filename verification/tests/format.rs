use speech_api::format::{default_true, AudioFormat};

#[test]
fn mime_types_follow_the_format() {
    assert_eq!(AudioFormat::Mp3.mime_type(), "audio/mpeg");
    assert_eq!(AudioFormat::Wav.mime_type(), "audio/wav");
}

#[test]
fn suffixes_follow_the_format() {
    assert_eq!(AudioFormat::Mp3.suffix(), ".mp3");
    assert_eq!(AudioFormat::Wav.suffix(), ".wav");
}

#[test]
fn mime_types_and_suffixes_are_distinct() {
    assert_ne!(AudioFormat::Mp3.mime_type(), AudioFormat::Wav.mime_type());
    assert_ne!(AudioFormat::Mp3.suffix(), AudioFormat::Wav.suffix());
}

#[test]
fn the_default_format_is_mp3() {
    assert_eq!(AudioFormat::default(), AudioFormat::Mp3);
}

#[test]
fn the_default_return_mode_is_inline() {
    assert!(default_true());
}
