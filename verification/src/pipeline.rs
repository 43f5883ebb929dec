//! One request, from arrival to reply.
//!
//! The pipeline decides; a driver acts. The driver performs the action it is
//! given (synthesize, read the clock, encode, write) and reports the outcome as
//! the next event. A request ends in exactly one reply: the audio, the
//! envelope that names the written file, or a failure.

use vstd::prelude::*;
use vstd::string::StringExecFns;
use crate::failure::FailureKind;
use crate::format::{mime_of, AudioFormat};
use crate::naming::{output_path, path_for};
use crate::request::{
    locale,
    resolved_voice,
    saved_response,
    TTSRequest,
    TTSRequestView,
    TTSResponse,
    TTSResponseView,
};

verus! {

/// What a request is waiting for.
#[derive(Clone, Copy, Debug, PartialEq, Eq, Structural)]
pub enum Stage {
    /// The samples.
    Synthesizing,
    /// The time, from which the file gets its name.
    Timing,
    /// The encoded bytes that go into the response.
    EncodingInline,
    /// The encoded bytes that go into the file named after `stamp`.
    EncodingForFile { stamp: u64 },
    /// The end of writing the file named after `stamp`.
    Writing { stamp: u64 },
    /// Nothing: the reply has been given.
    Finished,
}

/// A request in flight.
#[derive(Clone, Copy, Debug, PartialEq, Eq, Structural)]
pub struct Pipeline {
    pub format: AudioFormat,
    /// Whether the audio travels in the response.
    pub inline: bool,
    pub stage: Stage,
}

/// What the driver reports.
#[derive(Debug, PartialEq, Eq)]
pub enum Event {
    /// The sample source returned samples, or failed.
    Synthesized { ok: bool },
    /// The time in whole seconds since the epoch, or nothing where the clock
    /// could not give it.
    Clock { unix_seconds: Option<u64> },
    /// The encoder returned the artifact, or failed.
    Encoded { bytes: Option<Vec<u8>> },
    /// The file was written and closed, or not.
    Stored { ok: bool },
}

/// How a request is answered.
#[derive(Debug, PartialEq, Eq)]
pub enum Reply {
    /// The audio as the body, under the given content type.
    Audio { content_type: String, body: Vec<u8> },
    /// The envelope that names the file.
    Saved(TTSResponse),
    /// An internal error, without a body.
    Failure(FailureKind),
}

/// What the driver is to do next.
#[derive(Debug, PartialEq, Eq)]
pub enum Action {
    /// Ask the sample source for the samples of `text`.
    Synthesize { text: String, locale: String, voice: String },
    /// Read the clock.
    ReadClock,
    /// Encode the samples as MP3, in memory.
    EncodeMp3,
    /// Encode the samples as WAV, in memory.
    EncodeWav,
    /// Write `bytes` to `path`.
    WriteFile { path: String, bytes: Vec<u8> },
    /// Write the samples as a WAV file straight to `path`.
    WriteWavFile { path: String },
    /// Answer the request.
    Reply(Reply),
    /// The request was answered before; there is nothing to do.
    Nothing,
}

/// The mathematical content of an `Event`.
pub enum EventView {
    Synthesized { ok: bool },
    Clock { unix_seconds: Option<u64> },
    Encoded { bytes: Option<Seq<u8>> },
    Stored { ok: bool },
}

/// The mathematical content of a `Reply`.
pub enum ReplyView {
    Audio { content_type: Seq<char>, body: Seq<u8> },
    Saved(TTSResponseView),
    Failure(FailureKind),
}

/// The mathematical content of an `Action`.
pub enum ActionView {
    Synthesize { text: Seq<char>, locale: Seq<char>, voice: Seq<char> },
    ReadClock,
    EncodeMp3,
    EncodeWav,
    WriteFile { path: Seq<char>, bytes: Seq<u8> },
    WriteWavFile { path: Seq<char> },
    Reply(ReplyView),
    Nothing,
}

impl View for Event {
    type V = EventView;

    open spec fn view(&self) -> EventView {
        match *self {
            Event::Synthesized { ok } => EventView::Synthesized { ok },
            Event::Clock { unix_seconds } => EventView::Clock { unix_seconds },
            Event::Encoded { bytes } => EventView::Encoded {
                bytes: match bytes {
                    Some(b) => Some(b@),
                    None => None,
                },
            },
            Event::Stored { ok } => EventView::Stored { ok },
        }
    }
}

impl View for Reply {
    type V = ReplyView;

    open spec fn view(&self) -> ReplyView {
        match *self {
            Reply::Audio { content_type, body } => ReplyView::Audio {
                content_type: content_type@,
                body: body@,
            },
            Reply::Saved(response) => ReplyView::Saved(response@),
            Reply::Failure(kind) => ReplyView::Failure(kind),
        }
    }
}

impl View for Action {
    type V = ActionView;

    open spec fn view(&self) -> ActionView {
        match *self {
            Action::Synthesize { text, locale, voice } => ActionView::Synthesize {
                text: text@,
                locale: locale@,
                voice: voice@,
            },
            Action::ReadClock => ActionView::ReadClock,
            Action::EncodeMp3 => ActionView::EncodeMp3,
            Action::EncodeWav => ActionView::EncodeWav,
            Action::WriteFile { path, bytes } => ActionView::WriteFile {
                path: path@,
                bytes: bytes@,
            },
            Action::WriteWavFile { path } => ActionView::WriteWavFile { path: path@ },
            Action::Reply(reply) => ActionView::Reply(reply@),
            Action::Nothing => ActionView::Nothing,
        }
    }
}

/// The failure that is reported when what `stage` waits for does not come.
pub open spec fn failure_of(stage: Stage) -> FailureKind {
    match stage {
        Stage::Synthesizing => FailureKind::Synthesis,
        Stage::EncodingInline => FailureKind::Encoding,
        Stage::EncodingForFile { .. } => FailureKind::Encoding,
        _ => FailureKind::Io,
    }
}

/// The encoding that a format calls for.
pub open spec fn encode_action(format: AudioFormat) -> ActionView {
    match format {
        AudioFormat::Mp3 => ActionView::EncodeMp3,
        AudioFormat::Wav => ActionView::EncodeWav,
    }
}

/// The pipeline and the first action for a request that has just arrived.
pub open spec fn pipeline_start(request: TTSRequestView) -> (Pipeline, ActionView) {
    (
        Pipeline {
            format: request.response_format,
            inline: request.return_audio,
            stage: Stage::Synthesizing,
        },
        ActionView::Synthesize {
            text: request.input,
            locale: locale(),
            voice: resolved_voice(request.voice),
        },
    )
}

/// The pipeline's transition: the state after `event` and the action it calls
/// for. A failure report, and any event other than the one awaited, ends the
/// request with the failure of the stage it was in. Once answered, a request
/// calls for nothing more.
pub open spec fn pipeline_next(p: Pipeline, event: EventView) -> (Pipeline, ActionView) {
    match (p.stage, event) {
        (Stage::Finished, _) => (p, ActionView::Nothing),
        (Stage::Synthesizing, EventView::Synthesized { ok: true }) => {
            if p.inline {
                (Pipeline { stage: Stage::EncodingInline, ..p }, encode_action(p.format))
            } else {
                (Pipeline { stage: Stage::Timing, ..p }, ActionView::ReadClock)
            }
        },
        (Stage::Timing, EventView::Clock { unix_seconds: Some(stamp) }) => {
            match p.format {
                AudioFormat::Mp3 => (
                    Pipeline { stage: Stage::EncodingForFile { stamp }, ..p },
                    ActionView::EncodeMp3,
                ),
                AudioFormat::Wav => (
                    Pipeline { stage: Stage::Writing { stamp }, ..p },
                    ActionView::WriteWavFile { path: path_for(stamp, p.format) },
                ),
            }
        },
        (Stage::EncodingInline, EventView::Encoded { bytes: Some(body) }) => (
            Pipeline { stage: Stage::Finished, ..p },
            ActionView::Reply(ReplyView::Audio { content_type: mime_of(p.format), body }),
        ),
        (Stage::EncodingForFile { stamp }, EventView::Encoded { bytes: Some(bytes) }) => (
            Pipeline { stage: Stage::Writing { stamp }, ..p },
            ActionView::WriteFile { path: path_for(stamp, p.format), bytes },
        ),
        (Stage::Writing { stamp }, EventView::Stored { ok: true }) => (
            Pipeline { stage: Stage::Finished, ..p },
            ActionView::Reply(ReplyView::Saved(saved_response(path_for(stamp, p.format)))),
        ),
        _ => (
            Pipeline { stage: Stage::Finished, ..p },
            ActionView::Reply(ReplyView::Failure(failure_of(p.stage))),
        ),
    }
}

impl Pipeline {
    /// Takes a request in and asks for its samples: the text as given, the
    /// fixed locale, and the request's voice or the fallback.
    pub fn start(request: TTSRequest) -> (r: (Pipeline, Action))
        ensures
            (r.0, r.1@) == pipeline_start(request@),
    {
        let voice = request.voice_or_default();
        let pipeline = Pipeline {
            format: request.response_format,
            inline: request.return_audio,
            stage: Stage::Synthesizing,
        };
        let action = Action::Synthesize {
            text: request.input,
            locale: String::from_str("en-us"),
            voice,
        };
        (pipeline, action)
    }

    /// Whether the request has been answered.
    pub fn is_finished(&self) -> (r: bool)
        ensures
            r == (self.stage == Stage::Finished),
    {
        match self.stage {
            Stage::Finished => true,
            _ => false,
        }
    }

    /// Ends the request with the failure of the stage it is in.
    fn fail(self) -> (r: (Pipeline, Action))
        ensures
            r.0 == (Pipeline { stage: Stage::Finished, ..self }),
            r.1@ == ActionView::Reply(ReplyView::Failure(failure_of(self.stage))),
    {
        let kind = match self.stage {
            Stage::Synthesizing => FailureKind::Synthesis,
            Stage::EncodingInline => FailureKind::Encoding,
            Stage::EncodingForFile { .. } => FailureKind::Encoding,
            _ => FailureKind::Io,
        };
        (
            Pipeline { format: self.format, inline: self.inline, stage: Stage::Finished },
            Action::Reply(Reply::Failure(kind)),
        )
    }

    /// The pipeline moved to `stage`.
    fn at(self, stage: Stage) -> (r: Pipeline)
        ensures
            r == (Pipeline { stage, ..self }),
    {
        Pipeline { format: self.format, inline: self.inline, stage }
    }

    /// Takes one event and says what to do next.
    pub fn step(self, event: Event) -> (r: (Pipeline, Action))
        ensures
            (r.0, r.1@) == pipeline_next(self, event@),
    {
        match (self.stage, event) {
            (Stage::Finished, _) => (self, Action::Nothing),
            (Stage::Synthesizing, Event::Synthesized { ok: true }) => {
                if self.inline {
                    let action = match self.format {
                        AudioFormat::Mp3 => Action::EncodeMp3,
                        AudioFormat::Wav => Action::EncodeWav,
                    };
                    (self.at(Stage::EncodingInline), action)
                } else {
                    (self.at(Stage::Timing), Action::ReadClock)
                }
            },
            (Stage::Timing, Event::Clock { unix_seconds: Some(stamp) }) => {
                match self.format {
                    AudioFormat::Mp3 => (
                        self.at(Stage::EncodingForFile { stamp }),
                        Action::EncodeMp3,
                    ),
                    AudioFormat::Wav => (
                        self.at(Stage::Writing { stamp }),
                        Action::WriteWavFile { path: output_path(stamp, self.format) },
                    ),
                }
            },
            (Stage::EncodingInline, Event::Encoded { bytes: Some(body) }) => {
                let content_type = String::from_str(self.format.mime_type());
                (self.at(Stage::Finished), Action::Reply(Reply::Audio { content_type, body }))
            },
            (Stage::EncodingForFile { stamp }, Event::Encoded { bytes: Some(bytes) }) => (
                self.at(Stage::Writing { stamp }),
                Action::WriteFile { path: output_path(stamp, self.format), bytes },
            ),
            (Stage::Writing { stamp }, Event::Stored { ok: true }) => (
                self.at(Stage::Finished),
                Action::Reply(Reply::Saved(TTSResponse::saved(output_path(stamp, self.format)))),
            ),
            _ => self.fail(),
        }
    }
}

/// How far a request has come.
pub open spec fn stage_rank(stage: Stage) -> nat {
    match stage {
        Stage::Synthesizing => 0,
        Stage::Timing => 1,
        Stage::EncodingInline => 2,
        Stage::EncodingForFile { .. } => 2,
        Stage::Writing { .. } => 3,
        Stage::Finished => 4,
    }
}

/// The stages that a request of the given mode and format can be in: an
/// inline request never waits for the clock or a file, a file request never
/// encodes for the response, and only MP3 is encoded before it is written.
pub open spec fn consistent(p: Pipeline) -> bool {
    match p.stage {
        Stage::Synthesizing => true,
        Stage::Timing => !p.inline,
        Stage::EncodingInline => p.inline,
        Stage::EncodingForFile { .. } => !p.inline && p.format == AudioFormat::Mp3,
        Stage::Writing { .. } => !p.inline,
        Stage::Finished => true,
    }
}

/// A request starts consistent and stays so, and neither its format nor its
/// mode ever changes.
pub proof fn pipeline_stays_consistent(request: TTSRequestView, p: Pipeline, event: EventView)
    ensures
        consistent(pipeline_start(request).0),
        consistent(p) ==> consistent(pipeline_next(p, event).0),
        pipeline_next(p, event).0.format == p.format,
        pipeline_next(p, event).0.inline == p.inline,
{
}

/// Whenever audio is sent as the body, the declared content type is the MIME
/// type of the request's format, and the body is what the encoder returned.
pub proof fn audio_reply_declares_format(p: Pipeline, event: EventView)
    requires
        pipeline_next(p, event).1 matches ActionView::Reply(ReplyView::Audio { .. }),
    ensures
        pipeline_next(p, event).1 == ActionView::Reply(
            ReplyView::Audio { content_type: mime_of(p.format), body: event->bytes->Some_0 },
        ),
        p.stage == Stage::EncodingInline,
        event matches EventView::Encoded { bytes: Some(_) },
        consistent(p) ==> p.inline,
{
}

/// An inline request whose synthesis and encoding succeed is answered with
/// the encoded bytes under the MIME type of its format: `audio/mpeg` for MP3,
/// `audio/wav` for WAV. The samples are asked for with the request's text, the
/// fixed locale and the resolved voice.
pub proof fn inline_request_gets_audio(request: TTSRequestView, body: Seq<u8>)
    requires
        request.return_audio,
    ensures
        ({
            let (p0, a0) = pipeline_start(request);
            let (p1, a1) = pipeline_next(p0, EventView::Synthesized { ok: true });
            let (p2, a2) = pipeline_next(p1, EventView::Encoded { bytes: Some(body) });
            &&& a0 == ActionView::Synthesize {
                text: request.input,
                locale: locale(),
                voice: resolved_voice(request.voice),
            }
            &&& a1 == encode_action(request.response_format)
            &&& a2 == ActionView::Reply(
                ReplyView::Audio { content_type: mime_of(request.response_format), body },
            )
            &&& p2.stage == Stage::Finished
        }),
        mime_of(AudioFormat::Mp3) == "audio/mpeg"@,
        mime_of(AudioFormat::Wav) == "audio/wav"@,
{
}

/// A file request in MP3 whose every step succeeds reads the clock, encodes,
/// writes the bytes to the path named after the time and the format, and only
/// then answers with the envelope that names that same path and carries no
/// audio.
pub proof fn mp3_file_request_names_written_file(
    request: TTSRequestView,
    stamp: u64,
    bytes: Seq<u8>,
)
    requires
        !request.return_audio,
        request.response_format == AudioFormat::Mp3,
    ensures
        ({
            let path = path_for(stamp, AudioFormat::Mp3);
            let (p0, a0) = pipeline_start(request);
            let (p1, a1) = pipeline_next(p0, EventView::Synthesized { ok: true });
            let (p2, a2) = pipeline_next(p1, EventView::Clock { unix_seconds: Some(stamp) });
            let (p3, a3) = pipeline_next(p2, EventView::Encoded { bytes: Some(bytes) });
            let (p4, a4) = pipeline_next(p3, EventView::Stored { ok: true });
            &&& a1 == ActionView::ReadClock
            &&& a2 == ActionView::EncodeMp3
            &&& a3 == ActionView::WriteFile { path, bytes }
            &&& a4 == ActionView::Reply(
                ReplyView::Saved(
                    TTSResponseView {
                        status: crate::request::success_status(),
                        file_path: Some(path),
                        audio: None,
                    },
                ),
            )
            &&& p4.stage == Stage::Finished
        }),
{
}

/// A file request in WAV whose every step succeeds reads the clock, has the
/// samples written straight to the path named after the time and the format,
/// and only then answers with the envelope that names that same path.
pub proof fn wav_file_request_names_written_file(request: TTSRequestView, stamp: u64)
    requires
        !request.return_audio,
        request.response_format == AudioFormat::Wav,
    ensures
        ({
            let path = path_for(stamp, AudioFormat::Wav);
            let (p0, a0) = pipeline_start(request);
            let (p1, a1) = pipeline_next(p0, EventView::Synthesized { ok: true });
            let (p2, a2) = pipeline_next(p1, EventView::Clock { unix_seconds: Some(stamp) });
            let (p3, a3) = pipeline_next(p2, EventView::Stored { ok: true });
            &&& a1 == ActionView::ReadClock
            &&& a2 == ActionView::WriteWavFile { path }
            &&& a3 == ActionView::Reply(ReplyView::Saved(saved_response(path)))
            &&& p3.stage == Stage::Finished
        }),
{
}

/// Whenever the envelope of a written file is sent, the driver has just
/// reported that file as stored, the envelope names its path, and the path
/// ends with the suffix of the request's format.
pub proof fn saved_reply_follows_store(p: Pipeline, event: EventView)
    requires
        pipeline_next(p, event).1 matches ActionView::Reply(ReplyView::Saved(_)),
    ensures
        p.stage is Writing,
        event == (EventView::Stored { ok: true }),
        pipeline_next(p, event).1 == ActionView::Reply(
            ReplyView::Saved(saved_response(path_for(p.stage->Writing_stamp, p.format))),
        ),
        ({
            let path = path_for(p.stage->Writing_stamp, p.format);
            let suffix = crate::format::suffix_of(p.format);
            path.len() >= suffix.len() && path.subrange(path.len() - suffix.len(), path.len() as int)
                == suffix
        }),
{
    crate::naming::path_ends_with_suffix(p.stage->Writing_stamp, p.format);
}

/// The file that is written carries the name that the envelope will give:
/// the path handed to the driver and the path in the later reply are the same.
pub proof fn reply_names_the_path_written(p: Pipeline, event: EventView)
    ensures
        ({
            let (q, action) = pipeline_next(p, event);
            let (_r, reply) = pipeline_next(q, EventView::Stored { ok: true });
            &&& action matches ActionView::WriteFile { path, .. } ==> reply == ActionView::Reply(
                ReplyView::Saved(saved_response(path)),
            )
            &&& action matches ActionView::WriteWavFile { path } ==> reply == ActionView::Reply(
                ReplyView::Saved(saved_response(path)),
            )
        }),
{
}

/// A failure of the step that a request waits for ends the request at once
/// with a failure reply of that step's kind: nothing is retried and nothing
/// partial is sent.
pub proof fn failure_is_terminal(p: Pipeline, event: EventView)
    requires
        p.stage != Stage::Finished,
        match event {
            EventView::Synthesized { ok } => !ok,
            EventView::Encoded { bytes } => bytes is None,
            EventView::Stored { ok } => !ok,
            EventView::Clock { unix_seconds } => unix_seconds is None,
        },
    ensures
        pipeline_next(p, event) == (
            Pipeline { stage: Stage::Finished, ..p },
            ActionView::Reply(ReplyView::Failure(failure_of(p.stage))),
        ),
        p.stage == Stage::Synthesizing && event is Synthesized ==> failure_of(p.stage)
            == FailureKind::Synthesis,
        (p.stage is EncodingInline || p.stage is EncodingForFile) && event is Encoded
            ==> failure_of(p.stage) == FailureKind::Encoding,
        p.stage is Writing && event is Stored ==> failure_of(p.stage) == FailureKind::Io,
        p.stage is Timing && event is Clock ==> failure_of(p.stage) == FailureKind::Io,
{
}

/// A request is answered exactly once: an action is a reply exactly when it
/// ends the request, every event moves an unanswered request forward, so the
/// reply comes after at most four events, and an answered request calls for
/// nothing more.
pub proof fn one_reply_per_request(p: Pipeline, event: EventView)
    ensures
        pipeline_next(p, event).1 is Reply <==> p.stage != Stage::Finished && pipeline_next(
            p,
            event,
        ).0.stage == Stage::Finished,
        p.stage != Stage::Finished ==> stage_rank(pipeline_next(p, event).0.stage) > stage_rank(
            p.stage,
        ),
        p.stage == Stage::Finished ==> pipeline_next(p, event) == (p, ActionView::Nothing),
{
}

} // verus!
