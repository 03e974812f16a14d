//! Routing of an upload to its decode path, and the checks made on packet
//! input before any decoder is involved.

use vstd::prelude::*;

use crate::container::{
    container_of, extract_ogg_opus_packets, has_ogg_opus_signature, looks_like_ogg_opus, ogg_chunks,
    ContainerFormat, detect_audio_format,
};
use crate::bytes::str_equal;
use crate::error::DecodeError;
use crate::format::AudioFormat;

verus! {

/// Rate at which Opus streams are decoded.
pub const OPUS_DECODE_RATE: u32 = 48000;

/// Container hint handed to the generic demuxer.
#[derive(Debug, Clone, Copy, PartialEq, Eq, Structural)]
pub enum DemuxHint {
    Ogg,
    Mp4,
    Wav,
    NoHint,
}

/// One way of decoding an upload.
#[derive(Debug, Clone, Copy, PartialEq, Eq, Structural)]
pub enum DecodeStrategy {
    /// Extract Opus packets and decode them on a pooled session.
    OpusPool,
    /// Read the bytes as a WAV file.
    WavReader,
    /// Hand the bytes to the generic demuxer with a hint.
    Demux(DemuxHint),
}

/// The strategies tried for `f`, in order; the first success wins. WebM is
/// not parsed here, so after the Opus pool refuses it a WebM upload takes
/// the same cascade as an unrecognised one.
pub open spec fn plan_for(f: AudioFormat) -> Seq<DecodeStrategy> {
    match f {
        AudioFormat::WebmOpus => seq![
            DecodeStrategy::OpusPool,
            DecodeStrategy::WavReader,
            DecodeStrategy::Demux(DemuxHint::Ogg),
            DecodeStrategy::Demux(DemuxHint::NoHint),
        ],
        AudioFormat::OggOpus => seq![DecodeStrategy::OpusPool],
        AudioFormat::Wav => seq![DecodeStrategy::WavReader, DecodeStrategy::Demux(DemuxHint::Wav)],
        AudioFormat::WebmVorbis => seq![DecodeStrategy::Demux(DemuxHint::Ogg)],
        AudioFormat::Mp4Aac => seq![DecodeStrategy::Demux(DemuxHint::Mp4)],
        AudioFormat::Unknown => seq![
            DecodeStrategy::WavReader,
            DecodeStrategy::Demux(DemuxHint::Ogg),
            DecodeStrategy::Demux(DemuxHint::NoHint),
        ],
    }
}

/// The error reported when every strategy for `f` failed.
pub open spec fn exhausted_error_of(f: AudioFormat) -> DecodeError {
    match f {
        AudioFormat::Mp4Aac => DecodeError::Mp4AacUnsupported,
        AudioFormat::Unknown => DecodeError::FormatUnrecognized,
        _ => DecodeError::CodecDecodeFailed,
    }
}

/// The decode strategies for an upload of format `format`, in the order in
/// which they are tried.
pub fn decode_plan(format: AudioFormat) -> (r: Vec<DecodeStrategy>)
    ensures
        r@ == plan_for(format),
{
    match format {
        AudioFormat::WebmOpus => vec![
            DecodeStrategy::OpusPool,
            DecodeStrategy::WavReader,
            DecodeStrategy::Demux(DemuxHint::Ogg),
            DecodeStrategy::Demux(DemuxHint::NoHint),
        ],
        AudioFormat::OggOpus => vec![DecodeStrategy::OpusPool],
        AudioFormat::Wav => vec![DecodeStrategy::WavReader, DecodeStrategy::Demux(DemuxHint::Wav)],
        AudioFormat::WebmVorbis => vec![DecodeStrategy::Demux(DemuxHint::Ogg)],
        AudioFormat::Mp4Aac => vec![DecodeStrategy::Demux(DemuxHint::Mp4)],
        AudioFormat::Unknown => vec![
            DecodeStrategy::WavReader,
            DecodeStrategy::Demux(DemuxHint::Ogg),
            DecodeStrategy::Demux(DemuxHint::NoHint),
        ],
    }
}

/// The error for an upload of format `format` on which every strategy
/// failed; MP4/AAC has its own kind so that callers can suggest another
/// browser.
pub fn exhausted_error(format: AudioFormat) -> (r: DecodeError)
    ensures
        r == exhausted_error_of(format),
{
    match format {
        AudioFormat::Mp4Aac => DecodeError::Mp4AacUnsupported,
        AudioFormat::Unknown => DecodeError::FormatUnrecognized,
        _ => DecodeError::CodecDecodeFailed,
    }
}

/// Does a stream decoded at `native_rate` Hz go through the 48 kHz to
/// 16 kHz converter before it is returned?
pub fn needs_downsampling(native_rate: u32) -> (r: bool)
    ensures
        r == (native_rate == OPUS_DECODE_RATE),
{
    native_rate == OPUS_DECODE_RATE
}

/// What packet extraction gives for container bytes on the Opus path.
pub open spec fn opus_source_ok(d: Seq<u8>) -> bool {
    (container_of(d) == ContainerFormat::OggOpus || (container_of(d) == ContainerFormat::Unknown
        && looks_like_ogg_opus(d))) && ogg_chunks(d).len() > 0
}

/// The error of `opus_packets_from_bytes` on bytes for which it fails.
pub open spec fn opus_source_error(d: Seq<u8>) -> DecodeError {
    if container_of(d) == ContainerFormat::OggOpus || (container_of(d) == ContainerFormat::Unknown
        && looks_like_ogg_opus(d)) {
        DecodeError::ContainerMalformed
    } else if container_of(d) == ContainerFormat::WebmOpus {
        DecodeError::ContainerMalformed
    } else if container_of(d) == ContainerFormat::Mp4Aac {
        DecodeError::Mp4AacUnsupported
    } else {
        DecodeError::FormatUnrecognized
    }
}

/// Opus packets from container bytes. Ogg streams (by the `OggS` marker, or
/// an `OpusHead` header in otherwise unrecognised bytes) go through the
/// page-marker scan; no Ogg page at all is `ContainerMalformed`. WebM is
/// not parsed (`ContainerMalformed`; the generic demuxer handles it), MP4 is
/// `Mp4AacUnsupported`, and raw concatenated streams are refused with
/// `FormatUnrecognized`: such senders must pass one packet per frame.
pub fn opus_packets_from_bytes(data: &[u8]) -> (r: Result<Vec<Vec<u8>>, DecodeError>)
    ensures
        opus_source_ok(data@) <==> r is Ok,
        r matches Err(e) ==> e == opus_source_error(data@),
        r matches Ok(p) ==> p@.len() == ogg_chunks(data@).len() && forall|i: int|
            0 <= i < p@.len() ==> #[trigger] p@[i]@ == data@.subrange(
                ogg_chunks(data@)[i].0,
                ogg_chunks(data@)[i].1,
            ),
{
    let container = detect_audio_format(data);
    let ogg_like = match container {
        ContainerFormat::OggOpus => true,
        ContainerFormat::Unknown => has_ogg_opus_signature(data),
        _ => false,
    };
    if ogg_like {
        let packets = extract_ogg_opus_packets(data);
        if packets.len() == 0 {
            Err(DecodeError::ContainerMalformed)
        } else {
            Ok(packets)
        }
    } else {
        match container {
            ContainerFormat::WebmOpus => Err(DecodeError::ContainerMalformed),
            ContainerFormat::Mp4Aac => Err(DecodeError::Mp4AacUnsupported),
            _ => Err(DecodeError::FormatUnrecognized),
        }
    }
}

/// Checks a caller-segmented packet list: it must hold at least one packet.
pub fn check_packet_list(packets: &[Vec<u8>]) -> (r: Result<(), DecodeError>)
    ensures
        packets@.len() == 0 <==> r == Err::<(), DecodeError>(DecodeError::NoPackets),
        packets@.len() > 0 <==> r is Ok,
{
    if packets.len() == 0 {
        Err(DecodeError::NoPackets)
    } else {
        Ok(())
    }
}

/// Smallest, largest and mean (rounded down) packet length.
#[derive(Debug, Clone, Copy, PartialEq, Eq, Structural)]
pub struct PacketSizeSummary {
    pub min: usize,
    pub max: usize,
    pub mean: usize,
}

pub open spec fn sum_lens(p: Seq<Vec<u8>>) -> nat
    decreases p.len(),
{
    if p.len() == 0 {
        0
    } else {
        sum_lens(p.drop_last()) + p.last()@.len()
    }
}

/// Size statistics of a packet list, `None` when it is empty.
pub fn packet_size_summary(packets: &[Vec<u8>]) -> (r: Option<PacketSizeSummary>)
    ensures
        packets@.len() == 0 <==> r is None,
        r matches Some(s) ==> {
            &&& (exists|i: int| 0 <= i < packets@.len() && packets@[i]@.len() == s.min)
            &&& (exists|i: int| 0 <= i < packets@.len() && packets@[i]@.len() == s.max)
            &&& (forall|i: int| 0 <= i < packets@.len() ==> s.min <= #[trigger] packets@[i]@.len() <= s.max)
            &&& s.mean as nat == sum_lens(packets@) / packets@.len()
        },
{
    let n = packets.len();
    if n == 0 {
        return None;
    }
    let mut lo: usize = packets[0].len();
    let mut hi: usize = lo;
    let mut sum: u128 = 0;
    let mut i: usize = 0;
    let big: u128 = usize::MAX as u128;
    assert(big <= 0xFFFF_FFFF_FFFF_FFFFu128);
    while i < n
        invariant
            n == packets@.len(),
            n > 0,
            i <= n,
            big == usize::MAX,
            big <= 0xFFFF_FFFF_FFFF_FFFFu128,
            sum as nat == sum_lens(packets@.subrange(0, i as int)),
            sum <= i * big,
            exists|k: int| 0 <= k < n && packets@[k]@.len() == lo,
            exists|k: int| 0 <= k < n && packets@[k]@.len() == hi,
            forall|k: int| 0 <= k < i ==> lo <= #[trigger] packets@[k]@.len() <= hi,
            lo <= hi,
        decreases n - i,
    {
        let len = packets[i].len();
        assert(packets@.subrange(0, i + 1).drop_last() =~= packets@.subrange(0, i as int));
        proof {
            assert((i + 1) * big == i * big + big) by (nonlinear_arith);
            assert((i + 1) * big <= big * big) by (nonlinear_arith)
                requires i + 1 <= big;
            assert(big * big <= 0xFFFF_FFFF_FFFF_FFFFu128 * 0xFFFF_FFFF_FFFF_FFFFu128) by (nonlinear_arith)
                requires big <= 0xFFFF_FFFF_FFFF_FFFFu128;
        }
        sum = sum + len as u128;
        if len < lo {
            lo = len;
        }
        if len > hi {
            hi = len;
        }
        i += 1;
    }
    assert(packets@.subrange(0, n as int) =~= packets@);
    proof {
        assert(sum / (n as u128) <= big) by (nonlinear_arith)
            requires sum <= n * big, n >= 1;
    }
    let mean = (sum / (n as u128)) as usize;
    Some(PacketSizeSummary { min: lo, max: hi, mean })
}

/// The signed 16-bit value of the little-endian byte pair `lo`, `hi`.
pub open spec fn i16_le(lo: u8, hi: u8) -> int {
    let u = lo as int + 256 * hi as int;
    if u >= 32768 {
        u - 65536
    } else {
        u
    }
}

/// Raw little-endian 16-bit PCM: one sample per byte pair. Empty or
/// odd-length input gives `None`.
pub fn pcm16le_samples(data: &[u8]) -> (r: Option<Vec<i16>>)
    ensures
        (data@.len() == 0 || data@.len() % 2 == 1) <==> r is None,
        r matches Some(v) ==> v@.len() * 2 == data@.len() && forall|i: int|
            0 <= i < v@.len() ==> #[trigger] v@[i] as int == i16_le(data@[2 * i], data@[2 * i + 1]),
{
    if data.len() == 0 || data.len() % 2 == 1 {
        return None;
    }
    let n = data.len() / 2;
    let mut out: Vec<i16> = Vec::new();
    let mut i: usize = 0;
    while i < n
        invariant
            n * 2 == data.len(),
            i <= n,
            out@.len() == i,
            forall|k: int| 0 <= k < i ==> #[trigger] out@[k] as int == i16_le(data@[2 * k], data@[2 * k + 1]),
        decreases n - i,
    {
        let lo = data[2 * i];
        let hi = data[2 * i + 1];
        let u: u32 = lo as u32 + 256 * (hi as u32);
        let v: i16 = if u >= 32768 { (u as i32 - 65536) as i16 } else { u as i16 };
        out.push(v);
        i += 1;
    }
    Some(out)
}

/// Container of an upload: an exact (case-sensitive) WebM, Ogg or MP4 MIME
/// type decides; otherwise the magic bytes do.
pub open spec fn upload_container(d: Seq<u8>, mime: Option<Seq<char>>) -> ContainerFormat {
    match mime {
        Some(m) => if m == "audio/webm"@ || m == "audio/webm;codecs=opus"@ {
            ContainerFormat::WebmOpus
        } else if m == "audio/ogg"@ || m == "audio/ogg;codecs=opus"@ {
            ContainerFormat::OggOpus
        } else if m == "audio/mp4"@ || m == "audio/mp4;codecs=mp4a.40.2"@ {
            ContainerFormat::Mp4Aac
        } else {
            container_of(d)
        },
        None => container_of(d),
    }
}

/// The container of an upload (see `upload_container`).
pub fn container_for_upload(data: &[u8], mime_type: Option<&str>) -> (r: ContainerFormat)
    ensures
        r == upload_container(
            data@,
            match mime_type {
                Some(m) => Some(m@),
                None => None,
            },
        ),
{
    match mime_type {
        Some(m) => {
            if str_equal(m, "audio/webm") || str_equal(m, "audio/webm;codecs=opus") {
                ContainerFormat::WebmOpus
            } else if str_equal(m, "audio/ogg") || str_equal(m, "audio/ogg;codecs=opus") {
                ContainerFormat::OggOpus
            } else if str_equal(m, "audio/mp4") || str_equal(m, "audio/mp4;codecs=mp4a.40.2") {
                ContainerFormat::Mp4Aac
            } else {
                detect_audio_format(data)
            }
        },
        None => detect_audio_format(data),
    }
}

} // verus!
