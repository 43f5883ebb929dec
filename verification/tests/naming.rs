use speech_api::format::AudioFormat;
use speech_api::naming::output_path;

#[test]
fn path_of_the_epoch() {
    assert_eq!(output_path(0, AudioFormat::Mp3), "tmp/output_0.mp3");
    assert_eq!(output_path(0, AudioFormat::Wav), "tmp/output_0.wav");
}

#[test]
fn path_of_a_single_digit() {
    assert_eq!(output_path(9, AudioFormat::Wav), "tmp/output_9.wav");
}

#[test]
fn path_at_a_power_of_ten() {
    assert_eq!(output_path(10, AudioFormat::Mp3), "tmp/output_10.mp3");
    assert_eq!(output_path(1000, AudioFormat::Mp3), "tmp/output_1000.mp3");
    assert_eq!(output_path(999, AudioFormat::Mp3), "tmp/output_999.mp3");
}

#[test]
fn path_of_an_ordinary_time() {
    assert_eq!(output_path(1700000000, AudioFormat::Mp3), "tmp/output_1700000000.mp3");
    assert_eq!(output_path(1234567890, AudioFormat::Wav), "tmp/output_1234567890.wav");
}

#[test]
fn path_of_the_largest_time() {
    assert_eq!(
        output_path(u64::MAX, AudioFormat::Wav),
        "tmp/output_18446744073709551615.wav"
    );
}

#[test]
fn path_agrees_with_std_formatting() {
    let stamps: [u64; 8] = [1, 12, 105, 4096, 70007, 1000000, 4294967296, 99999999999];
    for stamp in stamps {
        assert_eq!(output_path(stamp, AudioFormat::Mp3), format!("tmp/output_{}.mp3", stamp));
    }
}

#[test]
fn path_ends_with_the_suffix_of_its_format() {
    assert!(output_path(42, AudioFormat::Mp3).ends_with(AudioFormat::Mp3.suffix()));
    assert!(output_path(42, AudioFormat::Wav).ends_with(AudioFormat::Wav.suffix()));
}

#[test]
fn paths_differ_when_time_or_format_differ() {
    assert_ne!(output_path(1, AudioFormat::Mp3), output_path(2, AudioFormat::Mp3));
    assert_ne!(output_path(1, AudioFormat::Mp3), output_path(1, AudioFormat::Wav));
    assert_ne!(output_path(11, AudioFormat::Mp3), output_path(1, AudioFormat::Mp3));
    assert_eq!(output_path(7, AudioFormat::Wav), output_path(7, AudioFormat::Wav));
}
