//! WAV files: the canonical 44-byte header (RIFF/WAVE with a `fmt ` chunk
//! for 16-bit mono PCM and a `data` chunk), and reading integer PCM through
//! hound.

use vstd::prelude::*;

use crate::format::{
    ebml_magic, format_of_bytes, is_mp4_audio, ogg_magic, riff_magic, wave_tag, AudioFormat,
};

verus! {

/// Size of the header in bytes.
pub const WAV_HEADER_BYTES: usize = 44;

/// Little-endian bytes of a 32-bit value.
pub open spec fn le32(x: u32) -> Seq<u8> {
    seq![
        (x % 256) as u8,
        ((x / 256) % 256) as u8,
        ((x / 65536) % 256) as u8,
        ((x / 16777216) % 256) as u8,
    ]
}

/// Little-endian bytes of a 16-bit value.
pub open spec fn le16(x: u16) -> Seq<u8> {
    seq![(x % 256) as u8, ((x / 256) % 256) as u8]
}

/// The header of a 16-bit mono PCM file at `rate` Hz holding `samples`
/// samples.
pub open spec fn wav_header_spec(rate: u32, samples: nat) -> Seq<u8> {
    let data_size = (2 * samples) as u32;
    seq![0x52u8, 0x49u8, 0x46u8, 0x46u8] + le32((36 + 2 * samples) as u32) + seq![
        0x57u8,
        0x41u8,
        0x56u8,
        0x45u8,
    ] + seq![0x66u8, 0x6Du8, 0x74u8, 0x20u8] + le32(16) + le16(1) + le16(1) + le32(rate) + le32(
        (2 * rate) as u32,
    ) + le16(2) + le16(16) + seq![0x64u8, 0x61u8, 0x74u8, 0x61u8] + le32(data_size)
}

fn push_le32(out: &mut Vec<u8>, x: u32)
    ensures
        final(out)@ == old(out)@ + le32(x),
{
    out.push((x % 256) as u8);
    out.push(((x / 256) % 256) as u8);
    out.push(((x / 65536) % 256) as u8);
    out.push(((x / 16777216) % 256) as u8);
    assert(final(out)@ =~= old(out)@ + le32(x));
}

fn push_le16(out: &mut Vec<u8>, x: u16)
    ensures
        final(out)@ == old(out)@ + le16(x),
{
    out.push((x % 256) as u8);
    out.push(((x / 256) % 256) as u8);
    assert(final(out)@ =~= old(out)@ + le16(x));
}

fn push_tag(out: &mut Vec<u8>, a: u8, b: u8, c: u8, d: u8)
    ensures
        final(out)@ == old(out)@ + seq![a, b, c, d],
{
    out.push(a);
    out.push(b);
    out.push(c);
    out.push(d);
    assert(final(out)@ =~= old(out)@ + seq![a, b, c, d]);
}

/// Builds the header of a 16-bit mono PCM file at `sample_rate` Hz that
/// holds `sample_count` samples. The sizes must fit the header's 32-bit
/// fields.
pub fn wav_header(sample_rate: u32, sample_count: usize) -> (r: Vec<u8>)
    requires
        36 + 2 * sample_count <= u32::MAX,
        2 * sample_rate <= u32::MAX,
    ensures
        r@ == wav_header_spec(sample_rate, sample_count as nat),
        r@.len() == WAV_HEADER_BYTES,
{
    let data_size: u32 = (sample_count * 2) as u32;
    let mut out: Vec<u8> = Vec::new();
    push_tag(&mut out, 0x52, 0x49, 0x46, 0x46);
    push_le32(&mut out, 36 + data_size);
    push_tag(&mut out, 0x57, 0x41, 0x56, 0x45);
    push_tag(&mut out, 0x66, 0x6D, 0x74, 0x20);
    push_le32(&mut out, 16);
    push_le16(&mut out, 1);
    push_le16(&mut out, 1);
    push_le32(&mut out, sample_rate);
    push_le32(&mut out, sample_rate * 2);
    push_le16(&mut out, 2);
    push_le16(&mut out, 16);
    push_tag(&mut out, 0x64, 0x61, 0x74, 0x61);
    push_le32(&mut out, data_size);
    assert(out@ =~= wav_header_spec(sample_rate, sample_count as nat));
    out
}

/// Bytes that start with the header are detected as WAV, whatever follows.
pub proof fn lemma_header_detected_as_wav(rate: u32, samples: nat, body: Seq<u8>)
    ensures
        format_of_bytes(wav_header_spec(rate, samples) + body) == AudioFormat::Wav,
{
    let d = wav_header_spec(rate, samples) + body;
    assert(d.len() >= 44);
    assert(d[0] == 0x52u8 && d[1] == 0x49u8 && d[2] == 0x46u8 && d[3] == 0x46u8);
    assert(d[8] == 0x57u8 && d[9] == 0x41u8 && d[10] == 0x56u8 && d[11] == 0x45u8);
    assert(d.subrange(0, 4) =~= riff_magic());
    assert(d.subrange(8, 12) =~= wave_tag());
    assert(d.subrange(0, 4) != ebml_magic()) by {
        assert(d.subrange(0, 4)[0] != ebml_magic()[0]);
    }
    assert(d.subrange(0, 4) != ogg_magic()) by {
        assert(d.subrange(0, 4)[0] != ogg_magic()[0]);
    }
    assert(!is_mp4_audio(d)) by {
        let b = d.subrange(8, 12);
        assert(b[0] == 0x57u8);
        assert(b != seq![0x4Du8, 0x34u8, 0x41u8, 0x20u8]) by { assert(seq![0x4Du8, 0x34u8, 0x41u8, 0x20u8][0] == 0x4Du8); }
        assert(b != seq![0x6Du8, 0x70u8, 0x34u8, 0x31u8]) by { assert(seq![0x6Du8, 0x70u8, 0x34u8, 0x31u8][0] == 0x6Du8); }
        assert(b != seq![0x6Du8, 0x70u8, 0x34u8, 0x32u8]) by { assert(seq![0x6Du8, 0x70u8, 0x34u8, 0x32u8][0] == 0x6Du8); }
    }
}

#[verifier::external_type_specification]
#[verifier::external_body]
pub struct ExHoundError(hound::Error);

/// Header of a WAV file as hound reads it: channels, sample rate, bits per
/// sample, and whether the samples are floating point; `None` when hound
/// refuses the header.
pub uninterp spec fn wav_spec_of(bytes: Seq<u8>) -> Option<(u16, u32, u16, bool)>;

/// Integer samples of a WAV file as hound reads them, interleaved; `None`
/// when hound fails on the header or on a sample.
pub uninterp spec fn wav_ints_of(bytes: Seq<u8>) -> Option<Seq<i32>>;

/// Relies on `hound::WavReader::new` and `WavReader::spec`: parses the
/// header of the WAV file in `bytes`.
#[verifier::external_body]
fn read_wav_spec(bytes: &[u8]) -> (r: Result<(u16, u32, u16, bool), hound::Error>)
    ensures
        r is Ok <==> wav_spec_of(bytes@) is Some,
        r matches Ok(s) ==> Some(s) == wav_spec_of(bytes@),
{
    let reader = hound::WavReader::new(std::io::Cursor::new(bytes))?;
    let spec = reader.spec();
    let is_float = match spec.sample_format {
        hound::SampleFormat::Float => true,
        hound::SampleFormat::Int => false,
    };
    Ok((spec.channels, spec.sample_rate, spec.bits_per_sample, is_float))
}

/// Relies on `hound::WavReader::into_samples::<i32>`: every sample of an
/// integer WAV file in `bytes`, interleaved, or the first read error.
#[verifier::external_body]
fn read_wav_ints(bytes: &[u8]) -> (r: Result<Vec<i32>, hound::Error>)
    ensures
        r is Ok <==> wav_ints_of(bytes@) is Some,
        r matches Ok(v) ==> Some(v@) == wav_ints_of(bytes@),
{
    let reader = hound::WavReader::new(std::io::Cursor::new(bytes))?;
    reader.into_samples::<i32>().collect()
}

/// Why a WAV file yields no integer PCM.
#[derive(Debug, Clone, Copy, PartialEq, Eq, Structural)]
pub enum WavReadError {
    /// hound could not read the header or a sample.
    Malformed,
    /// The samples are floating point; they are read elsewhere.
    FloatSamples,
    /// Integer samples of a depth other than 16 or 32 bits.
    UnsupportedBitDepth(u16),
    /// The data chunk is empty.
    NoSamples,
}

/// Integer PCM read from a WAV file, interleaved by channel.
#[derive(Debug, Clone, PartialEq, Eq)]
pub struct WavPcm {
    pub channels: u16,
    pub sample_rate: u32,
    pub bits_per_sample: u16,
    pub samples: Vec<i32>,
}

/// The outcome for a header that reads as `(channels, rate, bits,
/// is_float)`: `None` when integer samples of a supported depth are due.
pub open spec fn header_rejection(is_float: bool, bits: u16) -> Option<WavReadError> {
    if is_float {
        Some(WavReadError::FloatSamples)
    } else if bits != 16 && bits != 32 {
        Some(WavReadError::UnsupportedBitDepth(bits))
    } else {
        None
    }
}

/// Decides from header fields whether integer samples are read.
pub fn check_wav_header(is_float: bool, bits_per_sample: u16) -> (r: Option<WavReadError>)
    ensures
        r == header_rejection(is_float, bits_per_sample),
{
    if is_float {
        Some(WavReadError::FloatSamples)
    } else if bits_per_sample != 16 && bits_per_sample != 32 {
        Some(WavReadError::UnsupportedBitDepth(bits_per_sample))
    } else {
        None
    }
}

/// Assembles integer PCM from a header and its samples; an empty sample
/// list is `NoSamples`.
pub fn wav_pcm_from_parts(channels: u16, sample_rate: u32, bits_per_sample: u16, samples: Vec<i32>) -> (r:
    Result<WavPcm, WavReadError>)
    ensures
        samples@.len() == 0 ==> r == Err::<WavPcm, WavReadError>(WavReadError::NoSamples),
        samples@.len() > 0 ==> (r matches Ok(p) && p.channels == channels && p.sample_rate
            == sample_rate && p.bits_per_sample == bits_per_sample && p.samples@ == samples@),
{
    if samples.len() == 0 {
        Err(WavReadError::NoSamples)
    } else {
        Ok(WavPcm { channels, sample_rate, bits_per_sample, samples })
    }
}

/// What reading the integer PCM of `bytes` gives, from what hound reads.
pub open spec fn wav_pcm_outcome(bytes: Seq<u8>) -> Result<(u16, u32, u16, Seq<i32>), WavReadError> {
    match wav_spec_of(bytes) {
        None => Err(WavReadError::Malformed),
        Some(h) => match header_rejection(h.3, h.2) {
            Some(e) => Err(e),
            None => match wav_ints_of(bytes) {
                None => Err(WavReadError::Malformed),
                Some(v) => if v.len() == 0 {
                    Err(WavReadError::NoSamples)
                } else {
                    Ok((h.0, h.1, h.2, v))
                },
            },
        },
    }
}

/// Reads the integer PCM of a 16- or 32-bit WAV file: hound's header fields
/// and samples, or `Malformed` when hound refuses the file, `FloatSamples`
/// or `UnsupportedBitDepth` for other sample kinds, and `NoSamples` for an
/// empty data chunk.
pub fn read_wav_pcm(bytes: &[u8]) -> (r: Result<WavPcm, WavReadError>)
    ensures
        match wav_pcm_outcome(bytes@) {
            Ok(o) => r matches Ok(p) && p.channels == o.0 && p.sample_rate == o.1
                && p.bits_per_sample == o.2 && p.samples@ == o.3,
            Err(e) => r == Err::<WavPcm, WavReadError>(e),
        },
{
    let (channels, rate, bits, is_float) = match read_wav_spec(bytes) {
        Ok(s) => s,
        Err(_) => return Err(WavReadError::Malformed),
    };
    if let Some(e) = check_wav_header(is_float, bits) {
        return Err(e);
    }
    match read_wav_ints(bytes) {
        Ok(samples) => wav_pcm_from_parts(channels, rate, bits, samples),
        Err(_) => Err(WavReadError::Malformed),
    }
}

} // verus!
