//! WAV framing: a fixed 44-byte header followed by the samples, four bytes
//! each, least significant byte first.
//!
//! A sample is handled as the 32-bit pattern of its IEEE-754 value, so the
//! framing neither reads nor rounds it.

use vstd::prelude::*;

verus! {

/// Samples per second of all audio that passes through the pipeline.
pub const SAMPLE_RATE: u32 = 24000;

/// Number of channels declared by the WAV header.
pub const WAV_CHANNELS: u16 = 1;

/// Width of one sample in bits.
pub const WAV_BITS_PER_SAMPLE: u16 = 32;

/// The format tag for IEEE floating-point samples.
pub const WAV_FORMAT_FLOAT: u16 = 3;

/// Bytes per second: sample rate times channels times bytes per sample.
pub const WAV_BYTE_RATE: u32 = 96000;

/// Bytes per sample frame: channels times bytes per sample.
pub const WAV_BLOCK_ALIGN: u16 = 4;

/// Length of the `fmt ` chunk's body.
pub const WAV_FMT_LEN: u32 = 16;

/// Length of the header that precedes the sample bytes.
pub const WAV_HEADER_LEN: usize = 44;

/// What a size field holds when the true size does not fit in 32 bits.
pub const WAV_SIZE_UNKNOWN: u32 = 0xFFFF_FFFF;

/// The most samples whose byte count still fits the `data` size field.
pub const WAV_MAX_SIZED_DATA: usize = 1073741823;

/// The most samples for which the `RIFF` size field is still exact.
pub const WAV_MAX_SIZED_RIFF: usize = 1073741814;

/// A 16-bit value as two bytes, least significant first.
pub open spec fn le16(x: u16) -> Seq<u8> {
    seq![(x % 256) as u8, (x / 256) as u8]
}

/// A 32-bit value as four bytes, least significant first.
pub open spec fn le32(x: u32) -> Seq<u8> {
    seq![
        (x % 256) as u8,
        (x / 256 % 256) as u8,
        (x / 65536 % 256) as u8,
        (x / 16777216) as u8,
    ]
}

/// The content of a 32-bit size field for a size of `bytes`.
pub open spec fn size_field(bytes: nat) -> u32 {
    if bytes <= 0xFFFF_FFFF {
        bytes as u32
    } else {
        WAV_SIZE_UNKNOWN
    }
}

/// The four bytes `RIFF`.
pub open spec fn tag_riff() -> Seq<u8> {
    seq![0x52u8, 0x49u8, 0x46u8, 0x46u8]
}

/// The four bytes `WAVE`.
pub open spec fn tag_wave() -> Seq<u8> {
    seq![0x57u8, 0x41u8, 0x56u8, 0x45u8]
}

/// The four bytes `fmt `.
pub open spec fn tag_fmt() -> Seq<u8> {
    seq![0x66u8, 0x6du8, 0x74u8, 0x20u8]
}

/// The four bytes `data`.
pub open spec fn tag_data() -> Seq<u8> {
    seq![0x64u8, 0x61u8, 0x74u8, 0x61u8]
}

/// The header of a file that holds `samples` samples: mono, `SAMPLE_RATE`,
/// 32-bit float.
pub open spec fn wav_header(samples: nat) -> Seq<u8> {
    tag_riff() + le32(size_field(36 + 4 * samples)) + tag_wave() + tag_fmt() + le32(WAV_FMT_LEN)
        + le16(WAV_FORMAT_FLOAT) + le16(WAV_CHANNELS) + le32(SAMPLE_RATE) + le32(WAV_BYTE_RATE)
        + le16(WAV_BLOCK_ALIGN) + le16(WAV_BITS_PER_SAMPLE) + tag_data() + le32(
        size_field(4 * samples),
    )
}

/// The samples laid out one after another, in order.
pub open spec fn sample_bytes(samples: Seq<u32>) -> Seq<u8>
    decreases samples.len(),
{
    if samples.len() == 0 {
        Seq::<u8>::empty()
    } else {
        sample_bytes(samples.drop_last()) + le32(samples.last())
    }
}

/// The whole file for the given samples.
pub open spec fn wav_file(samples: Seq<u32>) -> Seq<u8> {
    wav_header(samples.len()) + sample_bytes(samples)
}

/// Appending one sample appends its four bytes.
pub proof fn sample_bytes_push(samples: Seq<u32>, x: u32)
    ensures
        sample_bytes(samples.push(x)) == sample_bytes(samples) + le32(x),
{
    assert(samples.push(x).drop_last() =~= samples);
}

/// Every sample takes four bytes.
pub proof fn sample_bytes_len(samples: Seq<u32>)
    ensures
        sample_bytes(samples).len() == 4 * samples.len(),
    decreases samples.len(),
{
    if samples.len() > 0 {
        sample_bytes_len(samples.drop_last());
    }
}

/// Sample `i` occupies bytes `4 * i` to `4 * i + 3` of the payload.
pub proof fn sample_bytes_at(samples: Seq<u32>, i: int)
    requires
        0 <= i < samples.len(),
    ensures
        sample_bytes(samples).len() == 4 * samples.len(),
        sample_bytes(samples).subrange(4 * i, 4 * i + 4) == le32(samples[i]),
    decreases samples.len(),
{
    sample_bytes_len(samples);
    sample_bytes_len(samples.drop_last());
    let init = sample_bytes(samples.drop_last());
    let tail = le32(samples.last());
    if i == samples.len() - 1 {
        assert((init + tail).subrange(4 * i, 4 * i + 4) =~= tail);
    } else {
        sample_bytes_at(samples.drop_last(), i);
        assert((init + tail).subrange(4 * i, 4 * i + 4) =~= init.subrange(4 * i, 4 * i + 4));
    }
}

/// Appends the two bytes of `x`.
fn push_le16(out: &mut Vec<u8>, x: u16)
    ensures
        final(out)@ == old(out)@ + le16(x),
{
    out.push((x % 256) as u8);
    out.push((x / 256) as u8);
    assert(out@ =~= old(out)@ + le16(x));
}

/// Appends the four bytes of `x`.
fn push_le32(out: &mut Vec<u8>, x: u32)
    ensures
        final(out)@ == old(out)@ + le32(x),
{
    out.push((x % 256) as u8);
    out.push((x / 256 % 256) as u8);
    out.push((x / 65536 % 256) as u8);
    out.push((x / 16777216) as u8);
    assert(out@ =~= old(out)@ + le32(x));
}

/// Appends a four-byte chunk tag.
fn push_tag(out: &mut Vec<u8>, a: u8, b: u8, c: u8, d: u8)
    ensures
        final(out)@ == old(out)@ + seq![a, b, c, d],
{
    out.push(a);
    out.push(b);
    out.push(c);
    out.push(d);
    assert(out@ =~= old(out)@ + seq![a, b, c, d]);
}

/// The `RIFF` size field for `samples` samples.
fn riff_size(samples: usize) -> (r: u32)
    ensures
        r == size_field(36 + 4 * (samples as nat)),
{
    if samples <= WAV_MAX_SIZED_RIFF {
        (36 + 4 * samples) as u32
    } else {
        WAV_SIZE_UNKNOWN
    }
}

/// The `data` size field for `samples` samples.
fn data_size(samples: usize) -> (r: u32)
    ensures
        r == size_field(4 * (samples as nat)),
{
    if samples <= WAV_MAX_SIZED_DATA {
        (4 * samples) as u32
    } else {
        WAV_SIZE_UNKNOWN
    }
}

/// Builds the header of a file that holds `samples` samples.
pub fn write_header(samples: usize) -> (out: Vec<u8>)
    ensures
        out@ == wav_header(samples as nat),
        out@.len() == WAV_HEADER_LEN,
{
    let mut out: Vec<u8> = Vec::new();
    push_tag(&mut out, 0x52, 0x49, 0x46, 0x46);
    push_le32(&mut out, riff_size(samples));
    push_tag(&mut out, 0x57, 0x41, 0x56, 0x45);
    push_tag(&mut out, 0x66, 0x6d, 0x74, 0x20);
    push_le32(&mut out, WAV_FMT_LEN);
    push_le16(&mut out, WAV_FORMAT_FLOAT);
    push_le16(&mut out, WAV_CHANNELS);
    push_le32(&mut out, SAMPLE_RATE);
    push_le32(&mut out, WAV_BYTE_RATE);
    push_le16(&mut out, WAV_BLOCK_ALIGN);
    push_le16(&mut out, WAV_BITS_PER_SAMPLE);
    push_tag(&mut out, 0x64, 0x61, 0x74, 0x61);
    push_le32(&mut out, data_size(samples));
    assert(out@ =~= wav_header(samples as nat));
    out
}

/// Appends the bytes of each sample to `out`, in order.
pub fn write_audio_chunk(out: &mut Vec<u8>, samples: &[u32])
    ensures
        final(out)@ == old(out)@ + sample_bytes(samples@),
{
    let n: usize = samples.len();
    let mut i: usize = 0;
    assert(old(out)@ + sample_bytes(samples@.take(0)) =~= old(out)@);
    while i < n
        invariant
            n == samples@.len(),
            i <= n,
            out@ == old(out)@ + sample_bytes(samples@.take(i as int)),
        decreases n - i,
    {
        let x: u32 = samples[i];
        push_le32(out, x);
        proof {
            sample_bytes_push(samples@.take(i as int), x);
            assert(samples@.take(i as int).push(x) =~= samples@.take(i as int + 1));
            assert(old(out)@ + sample_bytes(samples@.take(i as int)) + le32(x) =~= old(out)@ + (
            sample_bytes(samples@.take(i as int)) + le32(x)));
        }
        i = i + 1;
    }
    assert(samples@.take(n as int) =~= samples@);
}

/// Encodes the samples as a complete WAV file in memory.
pub fn encode_wav(samples: &[u32]) -> (out: Vec<u8>)
    ensures
        out@ == wav_file(samples@),
{
    let mut out = write_header(samples.len());
    write_audio_chunk(&mut out, samples);
    out
}

/// The header is 44 bytes long and declares, at their fixed places, float
/// samples, one channel, the sample rate and 32 bits per sample.
pub proof fn header_declares_mono_float(samples: nat)
    ensures
        wav_header(samples).len() == WAV_HEADER_LEN,
        wav_header(samples).subrange(0, 4) == tag_riff(),
        wav_header(samples).subrange(8, 12) == tag_wave(),
        wav_header(samples).subrange(20, 22) == le16(WAV_FORMAT_FLOAT),
        wav_header(samples).subrange(22, 24) == le16(WAV_CHANNELS),
        wav_header(samples).subrange(24, 28) == le32(SAMPLE_RATE),
        wav_header(samples).subrange(34, 36) == le16(WAV_BITS_PER_SAMPLE),
        wav_header(samples).subrange(40, 44) == le32(size_field(4 * samples)),
{
    let h = wav_header(samples);
    assert(h.subrange(0, 4) =~= tag_riff());
    assert(h.subrange(8, 12) =~= tag_wave());
    assert(h.subrange(20, 22) =~= le16(WAV_FORMAT_FLOAT));
    assert(h.subrange(22, 24) =~= le16(WAV_CHANNELS));
    assert(h.subrange(24, 28) =~= le32(SAMPLE_RATE));
    assert(h.subrange(34, 36) =~= le16(WAV_BITS_PER_SAMPLE));
    assert(h.subrange(40, 44) =~= le32(size_field(4 * samples)));
}

/// A file is its header followed by the samples in order: sample `i` is found
/// in the four bytes from `44 + 4 * i` on.
pub proof fn file_holds_samples_in_order(samples: Seq<u32>, i: int)
    requires
        0 <= i < samples.len(),
    ensures
        wav_file(samples).len() == WAV_HEADER_LEN + 4 * samples.len(),
        wav_file(samples).subrange(0, WAV_HEADER_LEN as int) == wav_header(samples.len()),
        wav_file(samples).subrange(WAV_HEADER_LEN + 4 * i, WAV_HEADER_LEN + 4 * i + 4) == le32(
            samples[i],
        ),
{
    header_declares_mono_float(samples.len());
    sample_bytes_at(samples, i);
    let h = wav_header(samples.len());
    let body = sample_bytes(samples);
    assert((h + body).subrange(0, 44) =~= h);
    assert((h + body).subrange(44 + 4 * i, 44 + 4 * i + 4) =~= body.subrange(4 * i, 4 * i + 4));
}

/// Four bytes stand for one value only.
pub proof fn le32_is_injective(x: u32, y: u32)
    requires
        le32(x) == le32(y),
    ensures
        x == y,
{
    assert(le32(x)[0] == le32(y)[0]);
    assert(le32(x)[1] == le32(y)[1]);
    assert(le32(x)[2] == le32(y)[2]);
    assert(le32(x)[3] == le32(y)[3]);
}

/// Encoding depends on nothing but the samples: the same samples always give
/// the same bytes, header and framing included.
pub proof fn encoding_is_deterministic(a: Seq<u32>, b: Seq<u32>)
    requires
        a.len() == b.len(),
        forall|i: int| 0 <= i < a.len() ==> a[i] == b[i],
    ensures
        wav_file(a) == wav_file(b),
{
    assert(a =~= b);
}

/// Encoding loses nothing: files that agree byte for byte hold the same
/// samples.
pub proof fn encoding_is_lossless(a: Seq<u32>, b: Seq<u32>)
    requires
        wav_file(a) == wav_file(b),
    ensures
        a == b,
{
    header_declares_mono_float(a.len());
    header_declares_mono_float(b.len());
    sample_bytes_len(a);
    sample_bytes_len(b);
    assert(wav_file(a).len() == 44 + 4 * a.len());
    assert(wav_file(b).len() == 44 + 4 * b.len());
    assert(a.len() == b.len());
    assert forall|i: int| 0 <= i < a.len() implies a[i] == b[i] by {
        file_holds_samples_in_order(a, i);
        file_holds_samples_in_order(b, i);
        le32_is_injective(a[i], b[i]);
    }
    assert(a =~= b);
}

/// With no samples the file is the bare header, whose data size is zero.
pub proof fn empty_audio_is_bare_header()
    ensures
        wav_file(Seq::<u32>::empty()) == wav_header(0),
        wav_file(Seq::<u32>::empty()).len() == WAV_HEADER_LEN,
        size_field(0) == 0,
{
    header_declares_mono_float(0);
    assert(wav_file(Seq::<u32>::empty()) =~= wav_header(0));
}

} // verus!
