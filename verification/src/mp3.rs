//! The protocol of one MP3 encoding session.
//!
//! The codec itself lives outside this library. This module decides what is
//! asked of it and in which order, how large the buffers are, what counts as a
//! failure, and how the output is put together: the bytes of the main pass
//! followed by the bytes of the flush. A driver performs each action and
//! reports what came of it as the next event.

use vstd::prelude::*;
use crate::wav::SAMPLE_RATE;

verus! {

/// Channels of the PCM handed to the codec: the mono signal is given as both
/// the left and the right channel.
pub const MP3_CHANNELS: u8 = 2;

/// The codec's quality setting, from 0 (best, slowest) to 9.
pub const MP3_QUALITY: u8 = 3;

/// The most that the codec holds back between calls, in bytes: the size of
/// the buffer that receives the flushed frames, and the headroom of the buffer
/// that receives the main pass.
pub const FLUSH_CAPACITY: usize = 7200;

/// The parameters a session is opened with.
#[derive(Clone, Copy, Debug, PartialEq, Eq, Structural)]
pub struct Mp3Settings {
    pub channels: u8,
    pub sample_rate: u32,
    pub quality: u8,
}

/// The parameters of every session.
pub open spec fn settings_spec() -> Mp3Settings {
    Mp3Settings { channels: MP3_CHANNELS, sample_rate: SAMPLE_RATE, quality: MP3_QUALITY }
}

/// Size of the main-pass buffer for `samples` samples per channel, where that
/// size can be addressed: two bytes for each sample and `FLUSH_CAPACITY` more.
/// The codec's worst case for one feed is five bytes for every four samples
/// plus 7200, so the buffer has room for whatever one feed can emit, however
/// short the audio.
pub open spec fn main_capacity_spec(samples: usize) -> Option<usize> {
    if 2 * samples + FLUSH_CAPACITY <= usize::MAX {
        Some((2 * samples + FLUSH_CAPACITY) as usize)
    } else {
        None
    }
}

/// What a flush reported: a negative code is a failure, any other code is the
/// number of bytes written.
pub open spec fn flush_written_spec(code: i32) -> Option<usize> {
    if code < 0 {
        None
    } else {
        Some(code as usize)
    }
}

/// The parameters of every session.
pub fn settings() -> (r: Mp3Settings)
    ensures
        r == settings_spec(),
{
    Mp3Settings { channels: MP3_CHANNELS, sample_rate: SAMPLE_RATE, quality: MP3_QUALITY }
}

/// Size of the main-pass buffer: two bytes for each sample and
/// `FLUSH_CAPACITY` more, or nothing where that size cannot be addressed.
pub fn main_capacity(samples: usize) -> (r: Option<usize>)
    ensures
        r == main_capacity_spec(samples),
{
    match samples.checked_mul(2) {
        Some(doubled) => doubled.checked_add(FLUSH_CAPACITY),
        None => None,
    }
}

/// Reads the code that a flush returned.
pub fn flush_written(code: i32) -> (r: Option<usize>)
    ensures
        r == flush_written_spec(code),
{
    if code < 0 {
        None
    } else {
        Some(code as usize)
    }
}

/// Where a session stands.
#[derive(Debug, PartialEq, Eq)]
pub enum Mp3State {
    /// Nothing has been asked yet.
    Idle,
    /// Exclusive use of the codec has been asked for.
    Waiting { samples: usize },
    /// The session is being opened and parameterized.
    Opening { samples: usize },
    /// The PCM has been handed over.
    Feeding,
    /// The flush has been asked for; `main` holds the main pass.
    Flushing { main: Vec<u8> },
    /// The session is over and exclusive use given back.
    Closed,
}

/// What the driver reports.
#[derive(Debug, PartialEq, Eq)]
pub enum Mp3Event {
    /// An encode of `samples` samples per channel is wanted.
    Begin { samples: usize },
    /// Exclusive use of the codec was granted.
    Acquired,
    /// The session was opened and took every parameter, or not.
    Opened { ok: bool },
    /// The main pass ended: `written` bytes at the front of `buffer`, or a
    /// failure.
    Fed { buffer: Vec<u8>, written: Option<usize> },
    /// The flush ended with `code`, having written to the front of `buffer`.
    Flushed { buffer: Vec<u8>, code: i32 },
}

/// What the driver is to do next.
#[derive(Debug, PartialEq, Eq)]
pub enum Mp3Action {
    /// Wait for exclusive use of the codec.
    Acquire,
    /// Open a session with these parameters.
    Open(Mp3Settings),
    /// Encode all PCM in one call into a buffer of `capacity` bytes.
    Feed { capacity: usize },
    /// Flush into a buffer of `capacity` bytes.
    Flush { capacity: usize },
    /// Close the session, release the codec and deliver these bytes.
    Finish(Vec<u8>),
    /// Close the session, release the codec and report an encoding failure.
    Fail,
}

/// The mathematical content of an `Mp3State`.
pub enum Mp3StateView {
    Idle,
    Waiting { samples: usize },
    Opening { samples: usize },
    Feeding,
    Flushing { main: Seq<u8> },
    Closed,
}

/// The mathematical content of an `Mp3Event`.
pub enum Mp3EventView {
    Begin { samples: usize },
    Acquired,
    Opened { ok: bool },
    Fed { buffer: Seq<u8>, written: Option<usize> },
    Flushed { buffer: Seq<u8>, code: i32 },
}

/// The mathematical content of an `Mp3Action`.
pub enum Mp3ActionView {
    Acquire,
    Open(Mp3Settings),
    Feed { capacity: usize },
    Flush { capacity: usize },
    Finish(Seq<u8>),
    Fail,
}

impl View for Mp3State {
    type V = Mp3StateView;

    open spec fn view(&self) -> Mp3StateView {
        match *self {
            Mp3State::Idle => Mp3StateView::Idle,
            Mp3State::Waiting { samples } => Mp3StateView::Waiting { samples },
            Mp3State::Opening { samples } => Mp3StateView::Opening { samples },
            Mp3State::Feeding => Mp3StateView::Feeding,
            Mp3State::Flushing { main } => Mp3StateView::Flushing { main: main@ },
            Mp3State::Closed => Mp3StateView::Closed,
        }
    }
}

impl View for Mp3Event {
    type V = Mp3EventView;

    open spec fn view(&self) -> Mp3EventView {
        match *self {
            Mp3Event::Begin { samples } => Mp3EventView::Begin { samples },
            Mp3Event::Acquired => Mp3EventView::Acquired,
            Mp3Event::Opened { ok } => Mp3EventView::Opened { ok },
            Mp3Event::Fed { buffer, written } => Mp3EventView::Fed { buffer: buffer@, written },
            Mp3Event::Flushed { buffer, code } => Mp3EventView::Flushed { buffer: buffer@, code },
        }
    }
}

impl View for Mp3Action {
    type V = Mp3ActionView;

    open spec fn view(&self) -> Mp3ActionView {
        match *self {
            Mp3Action::Acquire => Mp3ActionView::Acquire,
            Mp3Action::Open(settings) => Mp3ActionView::Open(settings),
            Mp3Action::Feed { capacity } => Mp3ActionView::Feed { capacity },
            Mp3Action::Flush { capacity } => Mp3ActionView::Flush { capacity },
            Mp3Action::Finish(bytes) => Mp3ActionView::Finish(bytes@),
            Mp3Action::Fail => Mp3ActionView::Fail,
        }
    }
}

/// The session's transition: the state after `event` and the action it calls
/// for. An event that the state does not await, a failure report, a byte count
/// beyond its buffer and a buffer size beyond the address space all close the
/// session with `Fail`.
pub open spec fn mp3_next(state: Mp3StateView, event: Mp3EventView) -> (
    Mp3StateView,
    Mp3ActionView,
) {
    match (state, event) {
        (Mp3StateView::Idle, Mp3EventView::Begin { samples }) => (
            Mp3StateView::Waiting { samples },
            Mp3ActionView::Acquire,
        ),
        (Mp3StateView::Waiting { samples }, Mp3EventView::Acquired) => (
            Mp3StateView::Opening { samples },
            Mp3ActionView::Open(settings_spec()),
        ),
        (Mp3StateView::Opening { samples }, Mp3EventView::Opened { ok }) => {
            if ok && main_capacity_spec(samples) is Some {
                (
                    Mp3StateView::Feeding,
                    Mp3ActionView::Feed { capacity: main_capacity_spec(samples)->Some_0 },
                )
            } else {
                (Mp3StateView::Closed, Mp3ActionView::Fail)
            }
        },
        (Mp3StateView::Feeding, Mp3EventView::Fed { buffer, written }) => {
            if written is Some && written->Some_0 <= buffer.len() {
                (
                    Mp3StateView::Flushing { main: buffer.take(written->Some_0 as int) },
                    Mp3ActionView::Flush { capacity: FLUSH_CAPACITY },
                )
            } else {
                (Mp3StateView::Closed, Mp3ActionView::Fail)
            }
        },
        (Mp3StateView::Flushing { main }, Mp3EventView::Flushed { buffer, code }) => {
            if 0 <= code <= buffer.len() {
                (Mp3StateView::Closed, Mp3ActionView::Finish(main + buffer.take(code as int)))
            } else {
                (Mp3StateView::Closed, Mp3ActionView::Fail)
            }
        },
        _ => (Mp3StateView::Closed, Mp3ActionView::Fail),
    }
}

impl Mp3State {
    /// A session of which nothing has been asked.
    pub fn new() -> (r: Mp3State)
        ensures
            r@ == Mp3StateView::Idle,
    {
        Mp3State::Idle
    }

    /// Whether the session is over.
    pub fn is_closed(&self) -> (r: bool)
        ensures
            r == (self@ == Mp3StateView::Closed),
    {
        match self {
            Mp3State::Closed => true,
            _ => false,
        }
    }

    /// Takes one event and says what to do next.
    pub fn step(self, event: Mp3Event) -> (r: (Mp3State, Mp3Action))
        ensures
            (r.0@, r.1@) == mp3_next(self@, event@),
    {
        match (self, event) {
            (Mp3State::Idle, Mp3Event::Begin { samples }) => (
                Mp3State::Waiting { samples },
                Mp3Action::Acquire,
            ),
            (Mp3State::Waiting { samples }, Mp3Event::Acquired) => (
                Mp3State::Opening { samples },
                Mp3Action::Open(settings()),
            ),
            (Mp3State::Opening { samples }, Mp3Event::Opened { ok }) => {
                match main_capacity(samples) {
                    Some(capacity) if ok => (Mp3State::Feeding, Mp3Action::Feed { capacity }),
                    _ => (Mp3State::Closed, Mp3Action::Fail),
                }
            },
            (Mp3State::Feeding, Mp3Event::Fed { buffer, written }) => {
                match written {
                    Some(n) if n <= buffer.len() => {
                        let mut main = buffer;
                        main.truncate(n);
                        assert(main@ =~= buffer@.take(n as int));
                        (Mp3State::Flushing { main }, Mp3Action::Flush { capacity: FLUSH_CAPACITY })
                    },
                    _ => (Mp3State::Closed, Mp3Action::Fail),
                }
            },
            (Mp3State::Flushing { main }, Mp3Event::Flushed { buffer, code }) => {
                match flush_written(code) {
                    Some(n) if n <= buffer.len() => {
                        let mut bytes = main;
                        let mut tail = buffer;
                        tail.truncate(n);
                        assert(tail@ =~= buffer@.take(code as int));
                        bytes.append(&mut tail);
                        (Mp3State::Closed, Mp3Action::Finish(bytes))
                    },
                    _ => (Mp3State::Closed, Mp3Action::Fail),
                }
            },
            _ => (Mp3State::Closed, Mp3Action::Fail),
        }
    }
}

/// How far a session has come: every step moves it forward.
pub open spec fn mp3_rank(state: Mp3StateView) -> nat {
    match state {
        Mp3StateView::Idle => 0,
        Mp3StateView::Waiting { .. } => 1,
        Mp3StateView::Opening { .. } => 2,
        Mp3StateView::Feeding => 3,
        Mp3StateView::Flushing { .. } => 4,
        Mp3StateView::Closed => 5,
    }
}

/// A session in which nothing fails issues, in this order, the wait for
/// exclusive use, the opening with the fixed parameters, one feed with room
/// for two bytes for each sample and `FLUSH_CAPACITY` more, one flush, and then
/// delivers the bytes of the main pass followed by the bytes of the flush.
pub proof fn clean_run_delivers_main_then_flush(
    samples: usize,
    fed: Seq<u8>,
    written: usize,
    flushed: Seq<u8>,
    code: i32,
)
    requires
        2 * samples + FLUSH_CAPACITY <= usize::MAX,
        written <= fed.len(),
        0 <= code <= flushed.len(),
    ensures
        ({
            let (s1, a1) = mp3_next(Mp3StateView::Idle, Mp3EventView::Begin { samples });
            let (s2, a2) = mp3_next(s1, Mp3EventView::Acquired);
            let (s3, a3) = mp3_next(s2, Mp3EventView::Opened { ok: true });
            let (s4, a4) = mp3_next(
                s3,
                Mp3EventView::Fed { buffer: fed, written: Some(written) },
            );
            let (s5, a5) = mp3_next(s4, Mp3EventView::Flushed { buffer: flushed, code });
            &&& a1 == Mp3ActionView::Acquire
            &&& a2 == Mp3ActionView::Open(settings_spec())
            &&& a3 == Mp3ActionView::Feed { capacity: (2 * samples + FLUSH_CAPACITY) as usize }
            &&& a4 == Mp3ActionView::Flush { capacity: FLUSH_CAPACITY }
            &&& a5 == Mp3ActionView::Finish(fed.take(written as int) + flushed.take(code as int))
            &&& s5 == Mp3StateView::Closed
        }),
{
}

/// The main-pass buffer holds the codec's worst case for one feed, five bytes
/// for every four samples plus 7200, and is never empty; a session is refused
/// for its size only where that size cannot be addressed.
pub proof fn main_capacity_covers_worst_case(samples: usize)
    ensures
        main_capacity_spec(samples) is None <==> 2 * samples + FLUSH_CAPACITY > usize::MAX,
        main_capacity_spec(samples) matches Some(capacity) ==> {
            &&& 4 * capacity >= 5 * samples + 4 * 7200
            &&& capacity >= FLUSH_CAPACITY
            &&& capacity > 0
            &&& capacity == 2 * samples + FLUSH_CAPACITY
        },
{
}

/// What the flush wrote is part of what is delivered: the output is as long
/// as the main pass and the flush together and ends with the flushed bytes, so
/// a flush that wrote anything makes the output non-empty even where the main
/// pass wrote nothing.
pub proof fn flush_bytes_reach_the_output(main: Seq<u8>, buffer: Seq<u8>, code: i32)
    requires
        0 <= code <= buffer.len(),
    ensures
        ({
            let (state, action) = mp3_next(
                Mp3StateView::Flushing { main },
                Mp3EventView::Flushed { buffer, code },
            );
            &&& state == Mp3StateView::Closed
            &&& action is Finish
            &&& action->Finish_0.len() == main.len() + code
            &&& action->Finish_0.subrange(0, main.len() as int) == main
            &&& action->Finish_0.subrange(main.len() as int, main.len() + code) == buffer.take(
                code as int,
            )
            &&& code > 0 ==> action->Finish_0.len() > 0
        }),
{
    let out = main + buffer.take(code as int);
    assert(out.subrange(0, main.len() as int) =~= main);
    assert(out.subrange(main.len() as int, main.len() + code) =~= buffer.take(code as int));
}

/// Bytes are delivered only in answer to a flush that succeeded: no output
/// leaves a session that was not flushed.
pub proof fn finish_follows_flush(state: Mp3StateView, event: Mp3EventView)
    requires
        mp3_next(state, event).1 is Finish,
    ensures
        state is Flushing,
        event is Flushed,
        event->code >= 0,
        mp3_next(state, event).0 == Mp3StateView::Closed,
{
}

/// The codec is driven only while exclusive use is held: nothing is asked of
/// it before the grant, nor after the session has closed.
pub proof fn codec_used_only_while_held(state: Mp3StateView, event: Mp3EventView)
    ensures
        ({
            let action = mp3_next(state, event).1;
            (action is Open || action is Feed || action is Flush) ==> !(state is Idle) && !(
            state is Closed)
        }),
        mp3_next(state, event).1 is Open ==> state is Waiting && event is Acquired,
{
}

/// Every event moves the session forward, so a session closes after at most
/// five events, and a closed session stays closed and delivers nothing.
pub proof fn session_advances(state: Mp3StateView, event: Mp3EventView)
    ensures
        !(state is Closed) ==> mp3_rank(mp3_next(state, event).0) > mp3_rank(state),
        state is Closed ==> mp3_next(state, event) == (Mp3StateView::Closed, Mp3ActionView::Fail),
        mp3_next(state, event).0 is Closed <==> (mp3_next(state, event).1 is Finish || mp3_next(
            state,
            event,
        ).1 is Fail),
{
}

/// Any reported failure closes the session at once.
pub proof fn failure_closes_session(state: Mp3StateView, event: Mp3EventView)
    requires
        match event {
            Mp3EventView::Opened { ok } => !ok,
            Mp3EventView::Fed { buffer, written } => written is None,
            Mp3EventView::Flushed { buffer, code } => code < 0,
            _ => false,
        },
    ensures
        mp3_next(state, event) == (Mp3StateView::Closed, Mp3ActionView::Fail),
{
}

} // verus!
