//! Container sniffing and best-effort extraction of codec packets from
//! container bytes.

use vstd::prelude::*;

use crate::bytes::{bytes_match_at, matches_at, occurs_before, occurs_in_prefix, starts_with};
use crate::format::{ebml_magic, ftyp_tag, ogg_magic, MIN_DETECT_BYTES};

verus! {

/// Container of an Opus-carrying upload.
#[derive(Debug, Clone, Copy, PartialEq, Eq, Structural)]
pub enum ContainerFormat {
    WebmOpus,
    OggOpus,
    Mp4Aac,
    Unknown,
}

/// Fixed part of an Ogg page header.
pub const OGG_PAGE_HEADER_BYTES: usize = 27;

/// Offset of the segment-count byte inside an Ogg page header.
pub const OGG_SEGMENT_COUNT_OFFSET: usize = 26;

/// Bytes taken as one packet after each Ogg page header.
pub const OGG_CHUNK_BYTES: usize = 4096;

/// The container that the leading bytes of `d` announce.
pub open spec fn container_of(d: Seq<u8>) -> ContainerFormat {
    if d.len() < MIN_DETECT_BYTES {
        ContainerFormat::Unknown
    } else if starts_with(d, ebml_magic()) {
        ContainerFormat::WebmOpus
    } else if starts_with(d, ogg_magic()) {
        ContainerFormat::OggOpus
    } else if matches_at(d, 4, ftyp_tag()) {
        ContainerFormat::Mp4Aac
    } else {
        ContainerFormat::Unknown
    }
}

/// ASCII `OpusHead`, the identification header of an Ogg Opus stream.
pub open spec fn opus_head_tag() -> Seq<u8> {
    seq![0x4Fu8, 0x70u8, 0x75u8, 0x73u8, 0x48u8, 0x65u8, 0x61u8, 0x64u8]
}

/// Bytes that look like an Ogg stream: the `OggS` marker first, or an
/// `OpusHead` header anywhere.
pub open spec fn looks_like_ogg_opus(d: Seq<u8>) -> bool {
    starts_with(d, ogg_magic()) || occurs_before(d, d.len() as int, opus_head_tag())
}

/// Byte ranges `[start, end)` that the page-marker scan takes as packets,
/// scanning from `pos`.
pub open spec fn ogg_chunks_from(d: Seq<u8>, pos: int) -> Seq<(int, int)>
    decreases d.len() + 27 - pos,
{
    if pos < 0 || pos >= d.len() {
        seq![]
    } else if matches_at(d, pos, ogg_magic()) {
        let rest = ogg_chunks_from(d, pos + 27);
        if pos + 27 < d.len() {
            let start = pos + 27 + d[pos + 26] as int;
            if start < d.len() {
                let end = if start + 4096 < d.len() {
                    start + 4096
                } else {
                    d.len() as int
                };
                seq![(start, end)] + rest
            } else {
                rest
            }
        } else {
            rest
        }
    } else {
        ogg_chunks_from(d, pos + 1)
    }
}

/// Packets extracted from Ogg bytes: one per page marker found.
pub open spec fn ogg_chunks(d: Seq<u8>) -> Seq<(int, int)> {
    ogg_chunks_from(d, 0)
}

/// Reports the container of `data` from its magic bytes.
pub fn detect_audio_format(data: &[u8]) -> (r: ContainerFormat)
    ensures
        r == container_of(data@),
{
    if data.len() < MIN_DETECT_BYTES {
        return ContainerFormat::Unknown;
    }
    let ebml: [u8; 4] = [0x1A, 0x45, 0xDF, 0xA3];
    let oggs: [u8; 4] = [0x4F, 0x67, 0x67, 0x53];
    let ftyp: [u8; 4] = [0x66, 0x74, 0x79, 0x70];
    assert(ebml@ =~= ebml_magic());
    assert(oggs@ =~= ogg_magic());
    assert(ftyp@ =~= ftyp_tag());
    if bytes_match_at(data, 0, &ebml) {
        ContainerFormat::WebmOpus
    } else if bytes_match_at(data, 0, &oggs) {
        ContainerFormat::OggOpus
    } else if bytes_match_at(data, 4, &ftyp) {
        ContainerFormat::Mp4Aac
    } else {
        ContainerFormat::Unknown
    }
}

/// Is `data` a WebM container?
pub fn is_webm_data(data: &[u8]) -> (r: bool)
    ensures
        r == (container_of(data@) == ContainerFormat::WebmOpus),
{
    detect_audio_format(data) == ContainerFormat::WebmOpus
}

/// Is `data` an Ogg container?
pub fn is_ogg_data(data: &[u8]) -> (r: bool)
    ensures
        r == (container_of(data@) == ContainerFormat::OggOpus),
{
    detect_audio_format(data) == ContainerFormat::OggOpus
}

/// Is `data` an MP4 container?
pub fn is_mp4_data(data: &[u8]) -> (r: bool)
    ensures
        r == (container_of(data@) == ContainerFormat::Mp4Aac),
{
    detect_audio_format(data) == ContainerFormat::Mp4Aac
}

/// Does `data` look like an Ogg Opus stream (see `looks_like_ogg_opus`)?
pub fn has_ogg_opus_signature(data: &[u8]) -> (r: bool)
    ensures
        r == looks_like_ogg_opus(data@),
{
    let oggs: [u8; 4] = [0x4F, 0x67, 0x67, 0x53];
    let head: [u8; 8] = [0x4F, 0x70, 0x75, 0x73, 0x48, 0x65, 0x61, 0x64];
    assert(oggs@ =~= ogg_magic());
    assert(head@ =~= opus_head_tag());
    bytes_match_at(data, 0, &oggs) || occurs_in_prefix(data, data.len(), &head)
}

proof fn lemma_chunks_past_end(d: Seq<u8>, pos: int)
    requires
        pos >= d.len(),
    ensures
        ogg_chunks_from(d, pos) == Seq::<(int, int)>::empty(),
{
}

/// Scans `data` for Ogg page markers and takes, after each page header, up
/// to `OGG_CHUNK_BYTES` bytes as one packet. This approximates Ogg framing:
/// segment tables are not followed.
pub fn extract_ogg_opus_packets(data: &[u8]) -> (r: Vec<Vec<u8>>)
    ensures
        r@.len() == ogg_chunks(data@).len(),
        forall|i: int|
            0 <= i < r@.len() ==> #[trigger] r@[i]@ == data@.subrange(
                ogg_chunks(data@)[i].0,
                ogg_chunks(data@)[i].1,
            ),
{
    let oggs: [u8; 4] = [0x4F, 0x67, 0x67, 0x53];
    assert(oggs@ =~= ogg_magic());
    let mut packets: Vec<Vec<u8>> = Vec::new();
    let ghost mut taken: Seq<(int, int)> = seq![];
    let mut pos: usize = 0;
    let n = data.len();
    while pos < n
        invariant
            n == data@.len(),
            pos <= n,
            oggs@ == ogg_magic(),
            ogg_chunks(data@) == taken + ogg_chunks_from(data@, pos as int),
            packets@.len() == taken.len(),
            forall|i: int|
                0 <= i < packets@.len() ==> #[trigger] packets@[i]@ == data@.subrange(
                    taken[i].0,
                    taken[i].1,
                ),
        decreases n - pos,
    {
        if bytes_match_at(data, pos, &oggs) {
            let next: usize = if n - pos > OGG_PAGE_HEADER_BYTES {
                pos + OGG_PAGE_HEADER_BYTES
            } else {
                n
            };
            proof {
                if n - pos <= OGG_PAGE_HEADER_BYTES {
                    lemma_chunks_past_end(data@, pos + 27);
                }
            }
            if n - pos > OGG_PAGE_HEADER_BYTES {
                let seg = data[pos + OGG_SEGMENT_COUNT_OFFSET] as usize;
                if n - next > seg {
                    let start = next + seg;
                    let end: usize = if n - start > OGG_CHUNK_BYTES {
                        start + OGG_CHUNK_BYTES
                    } else {
                        n
                    };
                    let chunk = slice_to_vec(data, start, end);
                    packets.push(chunk);
                    proof {
                        let old_taken = taken;
                        taken = taken + seq![(start as int, end as int)];
                        assert(taken + ogg_chunks_from(data@, next as int) =~= old_taken + (seq![
                            (start as int, end as int),
                        ] + ogg_chunks_from(data@, next as int)));
                        assert forall|i: int| 0 <= i < packets@.len() implies #[trigger] packets@[i]@
                            == data@.subrange(taken[i].0, taken[i].1) by {
                            if i < old_taken.len() {
                                assert(taken[i] == old_taken[i]);
                            }
                        }
                    }
                }
            }
            pos = next;
        } else {
            pos += 1;
        }
    }
    proof {
        lemma_chunks_past_end(data@, pos as int);
        assert(taken + ogg_chunks_from(data@, pos as int) =~= taken);
    }
    packets
}

/// Copies `data[start..end]` into a new vector.
fn slice_to_vec(data: &[u8], start: usize, end: usize) -> (r: Vec<u8>)
    requires
        start <= end <= data@.len(),
    ensures
        r@ == data@.subrange(start as int, end as int),
{
    let mut out: Vec<u8> = Vec::new();
    let mut i: usize = start;
    while i < end
        invariant
            start <= i <= end,
            end <= data@.len(),
            out@ == data@.subrange(start as int, i as int),
        decreases end - i,
    {
        out.push(data[i]);
        assert(data@.subrange(start as int, i + 1) =~= data@.subrange(start as int, i as int).push(
            data@[i as int],
        ));
        i += 1;
    }
    out
}

} // verus!
