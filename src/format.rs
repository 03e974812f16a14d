//! Format detection from MIME strings and magic bytes.

use vstd::prelude::*;

use crate::bytes::{bytes_match_at, matches_at, occurs_before, occurs_in_prefix, starts_with, str_equal};

verus! {

/// The container/codec combinations the ingest pipeline recognises.
#[derive(Debug, Clone, Copy, PartialEq, Eq, Hash, Structural)]
pub enum AudioFormat {
    WebmOpus,
    OggOpus,
    Mp4Aac,
    Wav,
    WebmVorbis,
    Unknown,
}

/// How many leading bytes are scanned for a codec name inside a container.
pub const CODEC_SCAN_BYTES: usize = 1024;

pub open spec fn ebml_magic() -> Seq<u8> {
    seq![0x1Au8, 0x45u8, 0xDFu8, 0xA3u8]
}

pub open spec fn ogg_magic() -> Seq<u8> {
    seq![0x4Fu8, 0x67u8, 0x67u8, 0x53u8]
}

pub open spec fn riff_magic() -> Seq<u8> {
    seq![0x52u8, 0x49u8, 0x46u8, 0x46u8]
}

pub open spec fn wave_tag() -> Seq<u8> {
    seq![0x57u8, 0x41u8, 0x56u8, 0x45u8]
}

pub open spec fn ftyp_tag() -> Seq<u8> {
    seq![0x66u8, 0x74u8, 0x79u8, 0x70u8]
}

/// The MP4 brands that identify an AAC audio file: `M4A `, `mp41`, `mp42`.
pub open spec fn is_audio_mp4_brand(b: Seq<u8>) -> bool {
    b == seq![0x4Du8, 0x34u8, 0x41u8, 0x20u8] || b == seq![0x6Du8, 0x70u8, 0x34u8, 0x31u8] || b
        == seq![0x6Du8, 0x70u8, 0x34u8, 0x32u8]
}

/// ASCII `Opus`.
pub open spec fn opus_tag() -> Seq<u8> {
    seq![0x4Fu8, 0x70u8, 0x75u8, 0x73u8]
}

/// ASCII `vorbis`.
pub open spec fn vorbis_tag() -> Seq<u8> {
    seq![0x76u8, 0x6Fu8, 0x72u8, 0x62u8, 0x69u8, 0x73u8]
}

/// Length of the codec-scan window over `d`.
pub open spec fn scan_len(d: Seq<u8>) -> int {
    if (CODEC_SCAN_BYTES as int) < d.len() {
        CODEC_SCAN_BYTES as int
    } else {
        d.len() as int
    }
}

pub open spec fn has_opus_marker(d: Seq<u8>) -> bool {
    occurs_before(d, scan_len(d), opus_tag())
}

pub open spec fn has_vorbis_marker(d: Seq<u8>) -> bool {
    occurs_before(d, scan_len(d), vorbis_tag())
}

/// Bytes carry an MP4 `ftyp` box whose brand is an audio brand.
pub open spec fn is_mp4_audio(d: Seq<u8>) -> bool {
    matches_at(d, 4, ftyp_tag()) && d.len() >= 12 && is_audio_mp4_brand(d.subrange(8, 12))
}

pub open spec fn is_wav(d: Seq<u8>) -> bool {
    starts_with(d, riff_magic()) && matches_at(d, 8, wave_tag())
}

/// Below this many bytes no format is read from the data.
pub const MIN_DETECT_BYTES: usize = 16;

/// The format that the magic bytes of `d` announce; data shorter than
/// `MIN_DETECT_BYTES` announces none.
pub open spec fn format_of_bytes(d: Seq<u8>) -> AudioFormat {
    if d.len() < MIN_DETECT_BYTES {
        AudioFormat::Unknown
    } else if starts_with(d, ebml_magic()) {
        if has_opus_marker(d) {
            AudioFormat::WebmOpus
        } else if has_vorbis_marker(d) {
            AudioFormat::WebmVorbis
        } else {
            AudioFormat::WebmOpus
        }
    } else if starts_with(d, ogg_magic()) {
        if has_opus_marker(d) {
            AudioFormat::OggOpus
        } else if has_vorbis_marker(d) {
            AudioFormat::WebmVorbis
        } else {
            AudioFormat::OggOpus
        }
    } else if is_mp4_audio(d) {
        AudioFormat::Mp4Aac
    } else if is_wav(d) {
        AudioFormat::Wav
    } else {
        AudioFormat::Unknown
    }
}

/// The format that an already lower-cased MIME type names.
pub open spec fn format_of_mime(m: Seq<char>) -> AudioFormat {
    if m == "audio/opus"@ {
        AudioFormat::OggOpus
    } else if m == "audio/webm"@ || m == "audio/webm;codecs=opus"@ {
        AudioFormat::WebmOpus
    } else if m == "audio/webm;codecs=vorbis"@ {
        AudioFormat::WebmVorbis
    } else if m == "audio/ogg"@ || m == "audio/ogg;codecs=opus"@ {
        AudioFormat::OggOpus
    } else if m == "audio/ogg;codecs=vorbis"@ {
        AudioFormat::WebmVorbis
    } else if m == "audio/mp4"@ || m == "audio/mp4;codecs=mp4a.40.2"@ || m == "audio/m4a"@ {
        AudioFormat::Mp4Aac
    } else if m == "audio/wav"@ || m == "audio/wave"@ {
        AudioFormat::Wav
    } else {
        AudioFormat::Unknown
    }
}

/// Processing priority of a format: lower is preferred when detection
/// sources disagree.
pub open spec fn priority_of(f: AudioFormat) -> u8 {
    match f {
        AudioFormat::WebmOpus => 1,
        AudioFormat::OggOpus => 2,
        AudioFormat::Wav => 3,
        AudioFormat::Mp4Aac => 4,
        AudioFormat::WebmVorbis => 5,
        AudioFormat::Unknown => 10,
    }
}

pub open spec fn is_opus_family(f: AudioFormat) -> bool {
    f == AudioFormat::WebmOpus || f == AudioFormat::OggOpus
}

pub open spec fn friendly_name_of(f: AudioFormat) -> Seq<char> {
    match f {
        AudioFormat::WebmOpus => "WebM (Opus)"@,
        AudioFormat::OggOpus => "OGG (Opus)"@,
        AudioFormat::Mp4Aac => "MP4 (AAC)"@,
        AudioFormat::Wav => "WAV (PCM)"@,
        AudioFormat::WebmVorbis => "WebM/OGG (Vorbis)"@,
        AudioFormat::Unknown => "未知格式"@,
    }
}

pub open spec fn support_status_of(f: AudioFormat) -> Seq<char> {
    match f {
        AudioFormat::WebmOpus => "✅ 已支援 (Chrome/Edge)"@,
        AudioFormat::OggOpus => "✅ 已支援 (Firefox)"@,
        AudioFormat::Mp4Aac => "⚠️ 計劃支援 (Safari)"@,
        AudioFormat::Wav => "✅ 已支援 (通用)"@,
        AudioFormat::WebmVorbis => "✅ 已支援 (舊版瀏覽器)"@,
        AudioFormat::Unknown => "❌ 不支援"@,
    }
}

/// What the full-Unicode lower-casing of `s` yields.
pub uninterp spec fn lower_of(s: Seq<char>) -> Seq<char>;

/// Relies on `str::to_lowercase`: the result depends on the characters of
/// the input alone.
#[verifier::external_body]
pub(crate) fn lowercase(s: &str) -> (r: String)
    ensures
        r@ == lower_of(s@),
{
    s.to_lowercase()
}

impl AudioFormat {
    /// Detects the format from the magic numbers at the start of `data`;
    /// fewer than sixteen bytes give `Unknown`.
    pub fn detect_from_data(data: &[u8]) -> (r: AudioFormat)
        ensures
            r == format_of_bytes(data@),
    {
        if data.len() < MIN_DETECT_BYTES {
            return AudioFormat::Unknown;
        }
        let ebml: [u8; 4] = [0x1A, 0x45, 0xDF, 0xA3];
        let oggs: [u8; 4] = [0x4F, 0x67, 0x67, 0x53];
        let ftyp: [u8; 4] = [0x66, 0x74, 0x79, 0x70];
        let riff: [u8; 4] = [0x52, 0x49, 0x46, 0x46];
        let wave: [u8; 4] = [0x57, 0x41, 0x56, 0x45];
        let m4a: [u8; 4] = [0x4D, 0x34, 0x41, 0x20];
        let mp41: [u8; 4] = [0x6D, 0x70, 0x34, 0x31];
        let mp42: [u8; 4] = [0x6D, 0x70, 0x34, 0x32];
        assert(ebml@ =~= ebml_magic());
        assert(oggs@ =~= ogg_magic());
        assert(ftyp@ =~= ftyp_tag());
        assert(riff@ =~= riff_magic());
        assert(wave@ =~= wave_tag());
        if bytes_match_at(data, 0, &ebml) {
            if Self::contains_opus_codec_info(data) {
                AudioFormat::WebmOpus
            } else if Self::contains_vorbis_codec_info(data) {
                AudioFormat::WebmVorbis
            } else {
                AudioFormat::WebmOpus
            }
        } else if bytes_match_at(data, 0, &oggs) {
            if Self::contains_opus_codec_info(data) {
                AudioFormat::OggOpus
            } else if Self::contains_vorbis_codec_info(data) {
                AudioFormat::WebmVorbis
            } else {
                AudioFormat::OggOpus
            }
        } else if bytes_match_at(data, 4, &ftyp) && data.len() >= 12 && (bytes_match_at(
            data,
            8,
            &m4a,
        ) || bytes_match_at(data, 8, &mp41) || bytes_match_at(data, 8, &mp42)) {
            assert(m4a@ =~= seq![0x4Du8, 0x34u8, 0x41u8, 0x20u8]);
            assert(mp41@ =~= seq![0x6Du8, 0x70u8, 0x34u8, 0x31u8]);
            assert(mp42@ =~= seq![0x6Du8, 0x70u8, 0x34u8, 0x32u8]);
            AudioFormat::Mp4Aac
        } else if bytes_match_at(data, 0, &riff) && bytes_match_at(data, 8, &wave) {
            AudioFormat::Wav
        } else {
            proof {
                if is_mp4_audio(data@) {
                    assert(m4a@ =~= seq![0x4Du8, 0x34u8, 0x41u8, 0x20u8]);
                    assert(mp41@ =~= seq![0x6Du8, 0x70u8, 0x34u8, 0x31u8]);
                    assert(mp42@ =~= seq![0x6Du8, 0x70u8, 0x34u8, 0x32u8]);
                }
            }
            AudioFormat::Unknown
        }
    }

    /// Does the codec-scan window of `data` hold ASCII `Opus`?
    fn contains_opus_codec_info(data: &[u8]) -> (r: bool)
        ensures
            r == has_opus_marker(data@),
    {
        let tag: [u8; 4] = [0x4F, 0x70, 0x75, 0x73];
        assert(tag@ =~= opus_tag());
        occurs_in_prefix(data, CODEC_SCAN_BYTES, &tag)
    }

    /// Does the codec-scan window of `data` hold ASCII `vorbis`?
    fn contains_vorbis_codec_info(data: &[u8]) -> (r: bool)
        ensures
            r == has_vorbis_marker(data@),
    {
        let tag: [u8; 6] = [0x76, 0x6F, 0x72, 0x62, 0x69, 0x73];
        assert(tag@ =~= vorbis_tag());
        occurs_in_prefix(data, CODEC_SCAN_BYTES, &tag)
    }

    /// Maps a MIME type to a format, ignoring case; an unrecognised type
    /// gives `Unknown`.
    pub fn detect_from_mime(mime_type: &str) -> (r: AudioFormat)
        ensures
            r == format_of_mime(lower_of(mime_type@)),
    {
        let lowered = lowercase(mime_type);
        Self::detect_from_lowercase_mime(lowered.as_str())
    }

    /// Maps an already lower-cased MIME type to a format by exact match.
    pub fn detect_from_lowercase_mime(m: &str) -> (r: AudioFormat)
        ensures
            r == format_of_mime(m@),
    {
        if str_equal(m, "audio/opus") {
            AudioFormat::OggOpus
        } else if str_equal(m, "audio/webm") || str_equal(m, "audio/webm;codecs=opus") {
            AudioFormat::WebmOpus
        } else if str_equal(m, "audio/webm;codecs=vorbis") {
            AudioFormat::WebmVorbis
        } else if str_equal(m, "audio/ogg") || str_equal(m, "audio/ogg;codecs=opus") {
            AudioFormat::OggOpus
        } else if str_equal(m, "audio/ogg;codecs=vorbis") {
            AudioFormat::WebmVorbis
        } else if str_equal(m, "audio/mp4") || str_equal(m, "audio/mp4;codecs=mp4a.40.2")
            || str_equal(m, "audio/m4a") {
            AudioFormat::Mp4Aac
        } else if str_equal(m, "audio/wav") || str_equal(m, "audio/wave") {
            AudioFormat::Wav
        } else {
            AudioFormat::Unknown
        }
    }

    /// Human-readable name of the format.
    pub fn friendly_name(&self) -> (r: &'static str)
        ensures
            r@ == friendly_name_of(*self),
    {
        match self {
            AudioFormat::WebmOpus => "WebM (Opus)",
            AudioFormat::OggOpus => "OGG (Opus)",
            AudioFormat::Mp4Aac => "MP4 (AAC)",
            AudioFormat::Wav => "WAV (PCM)",
            AudioFormat::WebmVorbis => "WebM/OGG (Vorbis)",
            AudioFormat::Unknown => "未知格式",
        }
    }

    /// Browser-support status line of the format.
    pub fn support_status(&self) -> (r: &'static str)
        ensures
            r@ == support_status_of(*self),
    {
        match self {
            AudioFormat::WebmOpus => "✅ 已支援 (Chrome/Edge)",
            AudioFormat::OggOpus => "✅ 已支援 (Firefox)",
            AudioFormat::Mp4Aac => "⚠️ 計劃支援 (Safari)",
            AudioFormat::Wav => "✅ 已支援 (通用)",
            AudioFormat::WebmVorbis => "✅ 已支援 (舊版瀏覽器)",
            AudioFormat::Unknown => "❌ 不支援",
        }
    }

    /// Processing priority (lower = preferred).
    pub fn processing_priority(&self) -> (r: u8)
        ensures
            r == priority_of(*self),
    {
        match self {
            AudioFormat::WebmOpus => 1,
            AudioFormat::OggOpus => 2,
            AudioFormat::Wav => 3,
            AudioFormat::Mp4Aac => 4,
            AudioFormat::WebmVorbis => 5,
            AudioFormat::Unknown => 10,
        }
    }

    /// Is this an Opus-family format?
    pub fn is_opus_format(&self) -> (r: bool)
        ensures
            r == is_opus_family(*self),
    {
        matches!(self, AudioFormat::WebmOpus | AudioFormat::OggOpus)
    }

    /// Does decoding this format go through the Opus stream decoder?
    pub fn requires_opus_decoder(&self) -> (r: bool)
        ensures
            r == is_opus_family(*self),
    {
        self.is_opus_format()
    }

    /// Is this one of the formats that current browsers record natively?
    pub fn is_modern_browser_format(&self) -> (r: bool)
        ensures
            r == (is_opus_family(*self) || *self == AudioFormat::Mp4Aac),
    {
        matches!(self, AudioFormat::WebmOpus | AudioFormat::OggOpus | AudioFormat::Mp4Aac)
    }
}

} // verus!
