//! The unified decoder's shared state: the format detector and the pool of
//! Opus decoder sessions it routes Opus uploads to.

use vstd::prelude::*;
use vstd::string::StringExecFns;

use crate::config::DecoderStats;
use crate::detector::{
    decimal, merge_signals, mime_signal, ranked_before, report_text, AudioFormatDetector, FORMAT_COUNT,
};
use crate::format::{format_of_bytes, AudioFormat};
use crate::pool::{idle_after_checkout, idle_after_release, BoundedPool, Checkout, Lease, PoolStats};

verus! {

pub open spec fn support_info_formats() -> Seq<AudioFormat> {
    seq![
        AudioFormat::WebmOpus,
        AudioFormat::OggOpus,
        AudioFormat::Wav,
        AudioFormat::WebmVorbis,
        AudioFormat::Mp4Aac,
        AudioFormat::Unknown,
    ]
}

/// Support line of each format in the support table.
pub open spec fn support_line_of(f: AudioFormat) -> Seq<char> {
    match f {
        AudioFormat::WebmOpus => "✅ 業界領先支援 - Chrome/Edge 標準格式 (完整 OPUS 解碼)"@,
        AudioFormat::OggOpus => "✅ 業界領先支援 - Firefox 標準格式 (完整 OPUS 解碼)"@,
        AudioFormat::Wav => "✅ 完全支援 - 通用格式 (PCM 解碼)"@,
        AudioFormat::WebmVorbis => "✅ 完全支援 - 舊版瀏覽器格式 (Symphonia)"@,
        AudioFormat::Mp4Aac => "⚠️ 計劃支援 - Safari 格式 (實驗性)"@,
        AudioFormat::Unknown => "❌ 不支援 - 請使用支援的格式"@,
    }
}

/// Detector plus a pool of decoder sessions of type `D`.
pub struct UnifiedAudioDecoder<D> {
    format_detector: AudioFormatDetector,
    opus_pool: BoundedPool<D>,
}

impl<D> UnifiedAudioDecoder<D> {
    pub closed spec fn wf(&self) -> bool {
        self.format_detector.wf() && self.opus_pool.wf()
    }

    /// The detector.
    pub closed spec fn detector(&self) -> AudioFormatDetector {
        self.format_detector
    }

    /// The session pool.
    pub closed spec fn pool(&self) -> BoundedPool<D> {
        self.opus_pool
    }

    /// A decoder whose pool holds the sessions built at start.
    pub fn new(sessions: Vec<D>) -> (r: Self)
        ensures
            r.wf(),
            forall|f: AudioFormat| r.detector().count(f) == 0,
            r.pool().idle_spec() == sessions@,
            r.pool().capacity_spec() == sessions@.len(),
    {
        UnifiedAudioDecoder { format_detector: AudioFormatDetector::new(), opus_pool: BoundedPool::new(sessions) }
    }

    /// Detects the format of an upload from its bytes and MIME type, and
    /// counts the result.
    pub fn detect(&mut self, data: &[u8], mime_type: &str) -> (r: AudioFormat)
        requires
            old(self).wf(),
        ensures
            final(self).wf(),
            r == merge_signals(mime_signal(Some(mime_type@)), format_of_bytes(data@)),
            final(self).pool() == old(self).pool(),
            final(self).detector().count(r) == if old(self).detector().count(r) == u64::MAX {
                u64::MAX
            } else {
                (old(self).detector().count(r) + 1) as u64
            },
            forall|f: AudioFormat| f != r ==> final(self).detector().count(f) == old(self).detector().count(f),
    {
        self.format_detector.detect_format(data, Some(mime_type))
    }

    /// Takes a decoder session from the pool (see `BoundedPool::checkout`).
    pub fn checkout_session(&mut self) -> (r: Lease<D>)
        requires
            old(self).wf(),
        ensures
            final(self).wf(),
            final(self).detector() == old(self).detector(),
            final(self).pool().capacity_spec() == old(self).pool().capacity_spec(),
            final(self).pool().idle_spec() == idle_after_checkout(old(self).pool().idle_spec()),
            old(self).pool().idle_spec().len() > 0 ==> (match r {
                Lease::Pooled(c) => c.pooled && c.resource == old(self).pool().idle_spec()[0],
                Lease::Miss => false,
            }),
            old(self).pool().idle_spec().len() == 0 ==> r is Miss,
    {
        self.opus_pool.checkout()
    }

    /// Returns a decoder session (see `BoundedPool::release`).
    pub fn release_session(&mut self, c: Checkout<D>) -> (kept: bool)
        requires
            old(self).wf(),
        ensures
            final(self).wf(),
            final(self).detector() == old(self).detector(),
            final(self).pool().capacity_spec() == old(self).pool().capacity_spec(),
            kept == (c.pooled && old(self).pool().idle_spec().len() < old(self).pool().capacity_spec()),
            final(self).pool().idle_spec() == idle_after_release(
                old(self).pool().idle_spec(),
                old(self).pool().capacity_spec(),
                c.resource,
                c.pooled,
            ),
    {
        self.opus_pool.release(c)
    }

    /// Replaces the idle sessions by freshly built ones.
    pub fn refresh_pool(&mut self, fresh: Vec<D>)
        requires
            old(self).wf(),
        ensures
            final(self).wf(),
            final(self).detector() == old(self).detector(),
            final(self).pool().capacity_spec() == old(self).pool().capacity_spec(),
            final(self).pool().idle_spec() == if fresh@.len() <= old(self).pool().capacity_spec() {
                fresh@
            } else {
                fresh@.take(old(self).pool().capacity_spec() as int)
            },
    {
        self.opus_pool.refresh(fresh)
    }

    /// Occupancy of the session pool.
    pub fn get_pool_stats(&self) -> (r: PoolStats)
        requires
            self.wf(),
        ensures
            r.total_size as nat == self.pool().capacity_spec(),
            r.available as nat == self.pool().idle_spec().len(),
            r.in_use as nat == self.pool().capacity_spec() - self.pool().idle_spec().len(),
    {
        self.opus_pool.get_pool_stats()
    }

    /// Every format with a line on how well it is supported.
    pub fn get_format_support_info() -> (r: Vec<(AudioFormat, &'static str)>)
        ensures
            r@.len() == 6,
            forall|i: int| 0 <= i < 6 ==> #[trigger] r@[i].0 == support_info_formats()[i] && r@[i].1@ == support_line_of(r@[i].0),
    {
        let r = vec![
            (AudioFormat::WebmOpus, "✅ 業界領先支援 - Chrome/Edge 標準格式 (完整 OPUS 解碼)"),
            (AudioFormat::OggOpus, "✅ 業界領先支援 - Firefox 標準格式 (完整 OPUS 解碼)"),
            (AudioFormat::Wav, "✅ 完全支援 - 通用格式 (PCM 解碼)"),
            (AudioFormat::WebmVorbis, "✅ 完全支援 - 舊版瀏覽器格式 (Symphonia)"),
            (AudioFormat::Mp4Aac, "⚠️ 計劃支援 - Safari 格式 (實驗性)"),
            (AudioFormat::Unknown, "❌ 不支援 - 請使用支援的格式"),
        ];
        r
    }

    /// Pool occupancy and the detection histogram.
    pub fn get_decoder_stats(&self) -> (r: DecoderStats)
        requires
            self.wf(),
        ensures
            r.opus_pool_total as nat == self.pool().capacity_spec(),
            r.opus_pool_available as nat == self.pool().idle_spec().len(),
            r.opus_pool_in_use as nat == self.pool().capacity_spec() - self.pool().idle_spec().len(),
            forall|i: int| 0 <= i < r.format_detections@.len() ==> r.format_detections@[i].1 == self.detector().count(r.format_detections@[i].0) && r.format_detections@[i].1 > 0,
            forall|f: AudioFormat| self.detector().count(f) > 0 ==> exists|i: int| 0 <= i < r.format_detections@.len() && r.format_detections@[i].0 == f,
    {
        let pool_stats = self.opus_pool.get_pool_stats();
        let detections = self.format_detector.get_detection_stats();
        let ghost d = detections@;
        let r = DecoderStats {
            opus_pool_total: pool_stats.total_size,
            opus_pool_available: pool_stats.available,
            opus_pool_in_use: pool_stats.in_use,
            format_detections: detections,
        };
        assert(r.format_detections@ == d);
        r
    }

    /// Clears the detection histogram.
    pub fn reset_stats(&mut self)
        requires
            old(self).wf(),
        ensures
            final(self).wf(),
            final(self).pool() == old(self).pool(),
            forall|f: AudioFormat| final(self).detector().count(f) == 0,
    {
        self.format_detector.reset_stats()
    }

    /// Pool occupancy followed by the detector's report.
    pub fn generate_report(&self) -> (r: String)
        requires
            self.wf(),
        ensures
            exists|rows: Seq<(AudioFormat, u64)>| {
                &&& r@ == pool_report(
                    self.pool().capacity_spec(),
                    self.pool().idle_spec().len(),
                    (self.pool().capacity_spec() - self.pool().idle_spec().len()) as nat,
                ) + report_text(rows)
                &&& rows.len() <= FORMAT_COUNT
                &&& forall|i: int| 0 <= i < rows.len() ==> rows[i].1 == self.detector().count(rows[i].0) && rows[i].1 > 0
                &&& forall|f: AudioFormat| self.detector().count(f) > 0 ==> exists|i: int| 0 <= i < rows.len() && rows[i].0 == f
                &&& forall|i: int, j: int| 0 <= i < j < rows.len() ==> ranked_before(rows[i], rows[j])
            },
    {
        let stats = self.opus_pool.get_pool_stats();
        let mut out = String::from_str("📊 統一音頻解碼器報告\n\n🎵 OPUS 解碼器池狀態:\n  - 總計: ");
        append_count(&mut out, stats.total_size);
        out.append(" 個解碼器\n  - 可用: ");
        append_count(&mut out, stats.available);
        out.append(" 個\n  - 使用中: ");
        append_count(&mut out, stats.in_use);
        out.append(" 個\n\n");
        let ghost head = out@;
        let detector_report = self.format_detector.generate_report();
        out.append(detector_report.as_str());
        proof {
            let rows = choose|rows: Seq<(AudioFormat, u64)>| {
                &&& detector_report@ == report_text(rows)
                &&& rows.len() <= FORMAT_COUNT
                &&& forall|i: int| 0 <= i < rows.len() ==> rows[i].1 == self.detector().count(rows[i].0) && rows[i].1 > 0
                &&& forall|f: AudioFormat| self.detector().count(f) > 0 ==> exists|i: int| 0 <= i < rows.len() && rows[i].0 == f
                &&& forall|i: int, j: int| 0 <= i < j < rows.len() ==> ranked_before(rows[i], rows[j])
            };
            assert(out@ == head + report_text(rows));
        }
        out
    }
}

/// The pool part of the unified report.
pub open spec fn pool_report(total: nat, available: nat, in_use: nat) -> Seq<char> {
    "📊 統一音頻解碼器報告\n\n🎵 OPUS 解碼器池狀態:\n  - 總計: "@ + decimal(total) + " 個解碼器\n  - 可用: "@
        + decimal(available) + " 個\n  - 使用中: "@ + decimal(in_use) + " 個\n\n"@
}

fn append_count(out: &mut String, n: usize)
    ensures
        final(out)@ == old(out)@ + crate::detector::decimal(n as nat),
{
    crate::detector::append_decimal(out, n as u128);
}

} // verus!
