use speech_api::failure::{FailureKind, INTERNAL_SERVER_ERROR};
use speech_api::format::AudioFormat;
use speech_api::pipeline::{Action, Event, Pipeline, Reply, Stage};
use speech_api::request::{TTSRequest, TTSResponse};
use speech_api::wav::encode_wav;

fn request(inline: bool, format: AudioFormat) -> TTSRequest {
    TTSRequest::from_fields(
        "tts-1".to_string(),
        "hello there".to_string(),
        Some("af_bella".to_string()),
        Some(inline),
        Some(format),
    )
}

fn synthesized(inline: bool, format: AudioFormat) -> (Pipeline, Action) {
    let (p, _) = Pipeline::start(request(inline, format));
    p.step(Event::Synthesized { ok: true })
}

#[test]
fn a_bare_request_is_spoken_inline_as_mp3_in_the_fallback_voice() {
    let r = TTSRequest::from_fields("x".to_string(), "hello".to_string(), None, None, None);
    let (p, a) = Pipeline::start(r);
    assert_eq!(
        a,
        Action::Synthesize {
            text: "hello".to_string(),
            locale: "en-us".to_string(),
            voice: "af_sky".to_string(),
        }
    );
    assert_eq!(
        p,
        Pipeline { format: AudioFormat::Mp3, inline: true, stage: Stage::Synthesizing }
    );
    let (p, a) = p.step(Event::Synthesized { ok: true });
    assert_eq!(a, Action::EncodeMp3);
    let (p, a) = p.step(Event::Encoded { bytes: Some(vec![0xFF, 0xFB, 0x00]) });
    assert_eq!(
        a,
        Action::Reply(Reply::Audio {
            content_type: "audio/mpeg".to_string(),
            body: vec![0xFF, 0xFB, 0x00],
        })
    );
    assert!(p.is_finished());
}

#[test]
fn the_chosen_voice_is_used() {
    let (_, a) = Pipeline::start(request(true, AudioFormat::Wav));
    assert_eq!(
        a,
        Action::Synthesize {
            text: "hello there".to_string(),
            locale: "en-us".to_string(),
            voice: "af_bella".to_string(),
        }
    );
}

#[test]
fn an_empty_input_is_handed_to_the_sample_source_as_it_is() {
    let r = TTSRequest::from_fields("x".to_string(), String::new(), None, None, Some(AudioFormat::Wav));
    let (p, a) = Pipeline::start(r);
    assert_eq!(
        a,
        Action::Synthesize {
            text: String::new(),
            locale: "en-us".to_string(),
            voice: "af_sky".to_string(),
        }
    );
    let (p, a) = p.step(Event::Synthesized { ok: true });
    assert_eq!(a, Action::EncodeWav);
    let artifact = encode_wav(&[]);
    assert_eq!(artifact.len(), 44);
    let (p, a) = p.step(Event::Encoded { bytes: Some(artifact.clone()) });
    assert_eq!(
        a,
        Action::Reply(Reply::Audio { content_type: "audio/wav".to_string(), body: artifact })
    );
    assert!(p.is_finished());
}

#[test]
fn an_empty_input_that_the_sample_source_refuses_is_a_synthesis_failure() {
    let r = TTSRequest::from_fields("x".to_string(), String::new(), None, None, None);
    let (p, _) = Pipeline::start(r);
    let (p, a) = p.step(Event::Synthesized { ok: false });
    assert_eq!(a, Action::Reply(Reply::Failure(FailureKind::Synthesis)));
    assert!(p.is_finished());
}

#[test]
fn inline_wav_is_declared_as_audio_wav() {
    let (p, a) = synthesized(true, AudioFormat::Wav);
    assert_eq!(a, Action::EncodeWav);
    assert_eq!(p.stage, Stage::EncodingInline);
    let (p, a) = p.step(Event::Encoded { bytes: Some(vec![1, 2, 3]) });
    assert_eq!(
        a,
        Action::Reply(Reply::Audio { content_type: "audio/wav".to_string(), body: vec![1, 2, 3] })
    );
    assert_eq!(p.stage, Stage::Finished);
}

#[test]
fn inline_mp3_is_declared_as_audio_mpeg() {
    let (p, a) = synthesized(true, AudioFormat::Mp3);
    assert_eq!(a, Action::EncodeMp3);
    let (_, a) = p.step(Event::Encoded { bytes: Some(vec![]) });
    assert_eq!(
        a,
        Action::Reply(Reply::Audio { content_type: "audio/mpeg".to_string(), body: vec![] })
    );
}

#[test]
fn an_mp3_file_is_encoded_then_written_then_named() {
    let (p, a) = synthesized(false, AudioFormat::Mp3);
    assert_eq!(a, Action::ReadClock);
    assert_eq!(p.stage, Stage::Timing);
    let (p, a) = p.step(Event::Clock { unix_seconds: Some(1700000000) });
    assert_eq!(a, Action::EncodeMp3);
    assert_eq!(p.stage, Stage::EncodingForFile { stamp: 1700000000 });
    let (p, a) = p.step(Event::Encoded { bytes: Some(vec![4, 5, 6]) });
    assert_eq!(
        a,
        Action::WriteFile { path: "tmp/output_1700000000.mp3".to_string(), bytes: vec![4, 5, 6] }
    );
    assert_eq!(p.stage, Stage::Writing { stamp: 1700000000 });
    let (p, a) = p.step(Event::Stored { ok: true });
    assert_eq!(
        a,
        Action::Reply(Reply::Saved(TTSResponse {
            status: "success".to_string(),
            file_path: Some("tmp/output_1700000000.mp3".to_string()),
            audio: None,
        }))
    );
    assert!(p.is_finished());
}

#[test]
fn a_wav_file_is_written_directly_then_named() {
    let (p, a) = synthesized(false, AudioFormat::Wav);
    assert_eq!(a, Action::ReadClock);
    let (p, a) = p.step(Event::Clock { unix_seconds: Some(12) });
    assert_eq!(a, Action::WriteWavFile { path: "tmp/output_12.wav".to_string() });
    assert_eq!(p.stage, Stage::Writing { stamp: 12 });
    let (p, a) = p.step(Event::Stored { ok: true });
    assert_eq!(
        a,
        Action::Reply(Reply::Saved(TTSResponse {
            status: "success".to_string(),
            file_path: Some("tmp/output_12.wav".to_string()),
            audio: None,
        }))
    );
    assert!(p.is_finished());
}

#[test]
fn a_failed_synthesis_ends_the_request() {
    for inline in [true, false] {
        for format in [AudioFormat::Mp3, AudioFormat::Wav] {
            let (p, _) = Pipeline::start(request(inline, format));
            let (p, a) = p.step(Event::Synthesized { ok: false });
            assert_eq!(a, Action::Reply(Reply::Failure(FailureKind::Synthesis)));
            assert!(p.is_finished());
            assert_eq!(p.format, format);
            assert_eq!(p.inline, inline);
        }
    }
}

#[test]
fn a_failed_encoding_ends_the_request() {
    let (p, _) = synthesized(true, AudioFormat::Mp3);
    let (p, a) = p.step(Event::Encoded { bytes: None });
    assert_eq!(a, Action::Reply(Reply::Failure(FailureKind::Encoding)));
    assert!(p.is_finished());
    let (p, _) = synthesized(false, AudioFormat::Mp3);
    let (p, _) = p.step(Event::Clock { unix_seconds: Some(5) });
    let (p, a) = p.step(Event::Encoded { bytes: None });
    assert_eq!(a, Action::Reply(Reply::Failure(FailureKind::Encoding)));
    assert!(p.is_finished());
}

#[test]
fn a_failed_write_ends_the_request() {
    let (p, _) = synthesized(false, AudioFormat::Wav);
    let (p, _) = p.step(Event::Clock { unix_seconds: Some(5) });
    let (p, a) = p.step(Event::Stored { ok: false });
    assert_eq!(a, Action::Reply(Reply::Failure(FailureKind::Io)));
    assert!(p.is_finished());
    let (p, _) = synthesized(false, AudioFormat::Mp3);
    let (p, _) = p.step(Event::Clock { unix_seconds: Some(5) });
    let (p, _) = p.step(Event::Encoded { bytes: Some(vec![1]) });
    let (p, a) = p.step(Event::Stored { ok: false });
    assert_eq!(a, Action::Reply(Reply::Failure(FailureKind::Io)));
    assert!(p.is_finished());
}

#[test]
fn a_clock_that_gives_no_time_ends_the_request() {
    for format in [AudioFormat::Mp3, AudioFormat::Wav] {
        let (p, a) = synthesized(false, format);
        assert_eq!(a, Action::ReadClock);
        let (p, a) = p.step(Event::Clock { unix_seconds: None });
        assert_eq!(a, Action::Reply(Reply::Failure(FailureKind::Io)));
        assert!(p.is_finished());
    }
}

#[test]
fn nothing_is_written_before_a_failure_of_the_source_or_the_encoder() {
    let (p, first) = Pipeline::start(request(false, AudioFormat::Mp3));
    assert!(matches!(first, Action::Synthesize { .. }));
    let (_, a) = p.step(Event::Synthesized { ok: false });
    assert_eq!(a, Action::Reply(Reply::Failure(FailureKind::Synthesis)));
    let (p, a) = synthesized(false, AudioFormat::Mp3);
    assert_eq!(a, Action::ReadClock);
    let (p, a) = p.step(Event::Clock { unix_seconds: Some(9) });
    assert_eq!(a, Action::EncodeMp3);
    let (_, a) = p.step(Event::Encoded { bytes: None });
    assert_eq!(a, Action::Reply(Reply::Failure(FailureKind::Encoding)));
}

#[test]
fn every_failure_is_reported_as_an_internal_error() {
    assert_eq!(INTERNAL_SERVER_ERROR, 500);
    assert_eq!(FailureKind::Synthesis.status_code(), 500);
    assert_eq!(FailureKind::Encoding.status_code(), 500);
    assert_eq!(FailureKind::Io.status_code(), 500);
}

#[test]
fn an_event_out_of_turn_ends_the_request_with_the_failure_of_its_stage() {
    let (p, _) = Pipeline::start(request(true, AudioFormat::Mp3));
    let (p, a) = p.step(Event::Encoded { bytes: Some(vec![1]) });
    assert_eq!(a, Action::Reply(Reply::Failure(FailureKind::Synthesis)));
    assert!(p.is_finished());
    let (p, _) = synthesized(true, AudioFormat::Mp3);
    let (p, a) = p.step(Event::Stored { ok: true });
    assert_eq!(a, Action::Reply(Reply::Failure(FailureKind::Encoding)));
    assert!(p.is_finished());
    let (p, _) = synthesized(false, AudioFormat::Wav);
    let (p, a) = p.step(Event::Synthesized { ok: true });
    assert_eq!(a, Action::Reply(Reply::Failure(FailureKind::Io)));
    assert!(p.is_finished());
    let (p, _) = synthesized(false, AudioFormat::Wav);
    let (p, _) = p.step(Event::Clock { unix_seconds: Some(1) });
    let (p, a) = p.step(Event::Clock { unix_seconds: Some(2) });
    assert_eq!(a, Action::Reply(Reply::Failure(FailureKind::Io)));
    assert!(p.is_finished());
}

#[test]
fn an_answered_request_calls_for_nothing_more() {
    let (p, _) = synthesized(true, AudioFormat::Wav);
    let (p, _) = p.step(Event::Encoded { bytes: Some(vec![1]) });
    assert!(p.is_finished());
    let (q, a) = p.step(Event::Encoded { bytes: Some(vec![2]) });
    assert_eq!(a, Action::Nothing);
    assert_eq!(q, p);
    let (q, a) = q.step(Event::Synthesized { ok: false });
    assert_eq!(a, Action::Nothing);
    assert_eq!(q, p);
    let (q, a) = q.step(Event::Clock { unix_seconds: Some(3) });
    assert_eq!(a, Action::Nothing);
    assert_eq!(q, p);
    let (q, a) = q.step(Event::Stored { ok: true });
    assert_eq!(a, Action::Nothing);
    assert_eq!(q, p);
}

#[test]
fn an_unfinished_request_says_so() {
    let (p, _) = Pipeline::start(request(false, AudioFormat::Mp3));
    assert!(!p.is_finished());
    let (p, _) = p.step(Event::Synthesized { ok: true });
    assert!(!p.is_finished());
}
