//! The decision core of a text-to-speech endpoint: format negotiation, request
//! defaults, WAV framing, the MP3 session protocol, output naming and the
//! per-request pipeline, each stated as a contract over plain values.

pub mod failure;
pub mod format;
pub mod mp3;
pub mod naming;
pub mod pipeline;
pub mod request;
pub mod wav;
