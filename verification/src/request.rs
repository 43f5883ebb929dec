//! The request as it arrives and the envelope that answers a persisted
//! artifact, with the defaults of the fields a caller may leave out.

use vstd::prelude::*;
use vstd::string::StringExecFns;
use crate::format::{default_true, AudioFormat};

verus! {

/// The voice used when a request names none.
pub open spec fn fallback_voice() -> Seq<char> {
    "af_sky"@
}

/// The locale of every synthesis call.
pub open spec fn locale() -> Seq<char> {
    "en-us"@
}

/// The status of the envelope that reports a persisted artifact.
pub open spec fn success_status() -> Seq<char> {
    "success"@
}

/// A request for speech.
#[derive(Debug, PartialEq, Eq)]
pub struct TTSRequest {
    /// Accepted and not otherwise used.
    pub model: String,
    /// The text to speak.
    pub input: String,
    /// The voice, if the caller chose one.
    pub voice: Option<String>,
    /// Whether the audio travels in the response rather than to a file.
    pub return_audio: bool,
    /// The container of the audio.
    pub response_format: AudioFormat,
}

/// The envelope that answers a request.
#[derive(Debug, PartialEq, Eq)]
pub struct TTSResponse {
    pub status: String,
    /// Present when the audio was written to a file.
    pub file_path: Option<String>,
    /// Present when the audio is carried as text.
    pub audio: Option<String>,
}

/// The mathematical content of a `TTSRequest`.
pub struct TTSRequestView {
    pub model: Seq<char>,
    pub input: Seq<char>,
    pub voice: Option<Seq<char>>,
    pub return_audio: bool,
    pub response_format: AudioFormat,
}

/// The mathematical content of a `TTSResponse`.
pub struct TTSResponseView {
    pub status: Seq<char>,
    pub file_path: Option<Seq<char>>,
    pub audio: Option<Seq<char>>,
}

/// The characters of an optional text.
pub open spec fn text_of(text: Option<String>) -> Option<Seq<char>> {
    match text {
        Some(t) => Some(t@),
        None => None,
    }
}

impl View for TTSRequest {
    type V = TTSRequestView;

    open spec fn view(&self) -> TTSRequestView {
        TTSRequestView {
            model: self.model@,
            input: self.input@,
            voice: text_of(self.voice),
            return_audio: self.return_audio,
            response_format: self.response_format,
        }
    }
}

impl View for TTSResponse {
    type V = TTSResponseView;

    open spec fn view(&self) -> TTSResponseView {
        TTSResponseView {
            status: self.status@,
            file_path: text_of(self.file_path),
            audio: text_of(self.audio),
        }
    }
}

/// The request that the given fields describe: an absent return mode means
/// inline, an absent format means MP3, an absent voice stays absent until the
/// voice is resolved.
pub open spec fn request_from_fields(
    model: Seq<char>,
    input: Seq<char>,
    voice: Option<Seq<char>>,
    return_audio: Option<bool>,
    response_format: Option<AudioFormat>,
) -> TTSRequestView {
    TTSRequestView {
        model,
        input,
        voice,
        return_audio: match return_audio {
            Some(flag) => flag,
            None => true,
        },
        response_format: match response_format {
            Some(format) => format,
            None => AudioFormat::Mp3,
        },
    }
}

/// The voice a request is spoken in.
pub open spec fn resolved_voice(voice: Option<Seq<char>>) -> Seq<char> {
    match voice {
        Some(v) => v,
        None => fallback_voice(),
    }
}

/// The envelope for an artifact written to `path`.
pub open spec fn saved_response(path: Seq<char>) -> TTSResponseView {
    TTSResponseView { status: success_status(), file_path: Some(path), audio: None }
}

impl TTSRequest {
    /// Builds a request from the fields of a payload, filling in the defaults
    /// of those that are absent.
    pub fn from_fields(
        model: String,
        input: String,
        voice: Option<String>,
        return_audio: Option<bool>,
        response_format: Option<AudioFormat>,
    ) -> (r: TTSRequest)
        ensures
            r@ == request_from_fields(
                model@,
                input@,
                text_of(voice),
                return_audio,
                response_format,
            ),
    {
        let return_audio = match return_audio {
            Some(flag) => flag,
            None => default_true(),
        };
        let response_format = match response_format {
            Some(format) => format,
            None => AudioFormat::default(),
        };
        TTSRequest { model, input, voice, return_audio, response_format }
    }

    /// The voice this request is spoken in: its own, or the fallback.
    pub fn voice_or_default(&self) -> (r: String)
        ensures
            r@ == resolved_voice(self@.voice),
    {
        match &self.voice {
            Some(v) => v.clone(),
            None => String::from_str("af_sky"),
        }
    }
}

impl TTSResponse {
    /// The envelope that reports an artifact written to `path`: no audio is
    /// carried.
    pub fn saved(path: String) -> (r: TTSResponse)
        ensures
            r@ == saved_response(path@),
    {
        TTSResponse { status: String::from_str("success"), file_path: Some(path), audio: None }
    }
}

} // verus!
