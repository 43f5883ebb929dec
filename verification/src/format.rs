//! Audio container formats and what each one is called on the wire and on disk.

use vstd::prelude::*;

verus! {

/// The container in which synthesized audio is delivered.
#[derive(Clone, Copy, Debug, PartialEq, Eq, Structural)]
pub enum AudioFormat {
    Mp3,
    Wav,
}

/// The MIME type declared for an inline response in the given format.
pub open spec fn mime_of(format: AudioFormat) -> Seq<char> {
    match format {
        AudioFormat::Mp3 => "audio/mpeg"@,
        AudioFormat::Wav => "audio/wav"@,
    }
}

/// The file suffix, dot included, of a persisted artifact in the given format.
pub open spec fn suffix_of(format: AudioFormat) -> Seq<char> {
    match format {
        AudioFormat::Mp3 => ".mp3"@,
        AudioFormat::Wav => ".wav"@,
    }
}

impl AudioFormat {
    /// The MIME type used when the audio travels in the response body.
    pub fn mime_type(&self) -> (r: &'static str)
        ensures
            r@ == mime_of(*self),
    {
        match self {
            AudioFormat::Mp3 => "audio/mpeg",
            AudioFormat::Wav => "audio/wav",
        }
    }

    /// The suffix used when the audio is written to a file.
    pub fn suffix(&self) -> (r: &'static str)
        ensures
            r@ == suffix_of(*self),
    {
        match self {
            AudioFormat::Mp3 => ".mp3",
            AudioFormat::Wav => ".wav",
        }
    }
}

impl Default for AudioFormat {
    /// A request that names no format gets MP3.
    fn default() -> (r: Self)
        ensures
            r == AudioFormat::Mp3,
    {
        AudioFormat::Mp3
    }
}

/// The value of the return-mode flag when a request leaves it out: the audio
/// travels inline.
pub fn default_true() -> (r: bool)
    ensures
        r,
{
    true
}

/// Two formats never share a MIME type, so the declared type identifies the
/// format.
pub proof fn mime_identifies_format(a: AudioFormat, b: AudioFormat)
    ensures
        mime_of(a) == mime_of(b) <==> a == b,
{
    reveal_strlit("audio/mpeg");
    reveal_strlit("audio/wav");
    assert("audio/mpeg"@.len() == 10);
    assert("audio/wav"@.len() == 9);
}

/// Two formats never share a file suffix, and every suffix is a dot followed by
/// three characters.
pub proof fn suffix_identifies_format(a: AudioFormat, b: AudioFormat)
    ensures
        suffix_of(a) == suffix_of(b) <==> a == b,
        suffix_of(a).len() == 4,
        suffix_of(a)[0] == '.',
{
    reveal_strlit(".mp3");
    reveal_strlit(".wav");
    assert(".mp3"@[1] == 'm');
    assert(".wav"@[1] == 'w');
}

} // verus!
