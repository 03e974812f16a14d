//! Combining the MIME signal with the magic-byte signal, with a per-format
//! detection histogram.

use vstd::prelude::*;
use vstd::string::StringExecFns;

use crate::format::{
    format_of_bytes, format_of_mime, is_opus_family, lower_of, priority_of, AudioFormat,
};

verus! {

/// Number of distinct `AudioFormat` values.
pub const FORMAT_COUNT: usize = 6;

/// Position of a format in the detection histogram.
pub open spec fn slot_of(f: AudioFormat) -> int {
    match f {
        AudioFormat::WebmOpus => 0,
        AudioFormat::OggOpus => 1,
        AudioFormat::Mp4Aac => 2,
        AudioFormat::Wav => 3,
        AudioFormat::WebmVorbis => 4,
        AudioFormat::Unknown => 5,
    }
}

/// The format at a histogram position.
pub open spec fn format_at_slot(i: int) -> AudioFormat {
    if i == 0 {
        AudioFormat::WebmOpus
    } else if i == 1 {
        AudioFormat::OggOpus
    } else if i == 2 {
        AudioFormat::Mp4Aac
    } else if i == 3 {
        AudioFormat::Wav
    } else if i == 4 {
        AudioFormat::WebmVorbis
    } else {
        AudioFormat::Unknown
    }
}

/// Outcome when the two signals disagree and neither rule above applies:
/// the one with the lower processing priority wins, the binary one on ties.
pub open spec fn resolve_conflict(mime: AudioFormat, binary: AudioFormat) -> AudioFormat {
    if priority_of(mime) < priority_of(binary) {
        mime
    } else {
        binary
    }
}

/// The combined result of an optional MIME signal and the binary signal.
pub open spec fn merge_signals(mime: Option<AudioFormat>, binary: AudioFormat) -> AudioFormat {
    match mime {
        Some(m) => if m == binary {
            m
        } else if is_opus_family(m) {
            m
        } else if binary == AudioFormat::Unknown && m != AudioFormat::Unknown {
            m
        } else {
            resolve_conflict(m, binary)
        },
        None => binary,
    }
}

/// The MIME signal of an optional MIME type.
pub open spec fn mime_signal(mime: Option<Seq<char>>) -> Option<AudioFormat> {
    match mime {
        Some(m) => Some(format_of_mime(lower_of(m))),
        None => None,
    }
}

/// Detects formats and keeps a count of each result.
pub struct AudioFormatDetector {
    counts: Vec<u64>,
}

impl Default for AudioFormatDetector {
    /// A detector with an empty histogram.
    fn default() -> (r: Self)
        ensures
            r.wf(),
            forall|f: AudioFormat| r.count(f) == 0,
    {
        Self::new()
    }
}

impl AudioFormatDetector {
    pub closed spec fn wf(&self) -> bool {
        self.counts@.len() == FORMAT_COUNT
    }

    /// How many detections resulted in format `f`.
    pub closed spec fn count(&self, f: AudioFormat) -> u64 {
        self.counts@[slot_of(f)]
    }

    /// A detector with an empty histogram.
    pub fn new() -> (r: Self)
        ensures
            r.wf(),
            forall|f: AudioFormat| r.count(f) == 0,
    {
        let counts: Vec<u64> = vec![0, 0, 0, 0, 0, 0];
        Self { counts }
    }

    /// Detects the format of `data` given an optional MIME type, and counts
    /// the result (saturating at `u64::MAX`).
    pub fn detect_format(&mut self, data: &[u8], mime_type: Option<&str>) -> (r: AudioFormat)
        requires
            old(self).wf(),
        ensures
            final(self).wf(),
            r == merge_signals(
                mime_signal(
                    match mime_type {
                        Some(m) => Some(m@),
                        None => None,
                    },
                ),
                format_of_bytes(data@),
            ),
            final(self).count(r) == if old(self).count(r) == u64::MAX {
                u64::MAX
            } else {
                (old(self).count(r) + 1) as u64
            },
            forall|f: AudioFormat| f != r ==> final(self).count(f) == old(self).count(f),
    {
        let mime_result = match mime_type {
            Some(m) => Some(AudioFormat::detect_from_mime(m)),
            None => None,
        };
        let binary_result = AudioFormat::detect_from_data(data);
        let result = Self::merge_detection_results(mime_result, binary_result);
        self.record(result);
        result
    }

    /// Adds one to the count of `f`, saturating.
    fn record(&mut self, f: AudioFormat)
        requires
            old(self).wf(),
        ensures
            final(self).wf(),
            final(self).count(f) == if old(self).count(f) == u64::MAX {
                u64::MAX
            } else {
                (old(self).count(f) + 1) as u64
            },
            forall|g: AudioFormat| g != f ==> final(self).count(g) == old(self).count(g),
    {
        let i = Self::slot(f);
        let c = self.counts[i];
        let next = if c == u64::MAX { c } else { c + 1 };
        self.counts.set(i, next);
        assert forall|g: AudioFormat| g != f implies final(self).count(g) == old(self).count(g) by {
            assert(slot_of(g) != slot_of(f));
        }
    }

    fn slot(f: AudioFormat) -> (r: usize)
        ensures
            r as int == slot_of(f),
            r < FORMAT_COUNT,
    {
        match f {
            AudioFormat::WebmOpus => 0,
            AudioFormat::OggOpus => 1,
            AudioFormat::Mp4Aac => 2,
            AudioFormat::Wav => 3,
            AudioFormat::WebmVorbis => 4,
            AudioFormat::Unknown => 5,
        }
    }

    /// Combines the two detection signals.
    fn merge_detection_results(mime_result: Option<AudioFormat>, binary_result: AudioFormat) -> (r:
        AudioFormat)
        ensures
            r == merge_signals(mime_result, binary_result),
    {
        match mime_result {
            Some(mime_fmt) => {
                if mime_fmt == binary_result {
                    mime_fmt
                } else if mime_fmt.is_opus_format() {
                    mime_fmt
                } else if binary_result == AudioFormat::Unknown && mime_fmt != AudioFormat::Unknown {
                    mime_fmt
                } else {
                    Self::resolve_detection_conflict(mime_fmt, binary_result)
                }
            },
            None => binary_result,
        }
    }

    /// Picks the signal with the lower processing priority.
    fn resolve_detection_conflict(mime_format: AudioFormat, binary_format: AudioFormat) -> (r:
        AudioFormat)
        ensures
            r == resolve_conflict(mime_format, binary_format),
    {
        if mime_format.processing_priority() < binary_format.processing_priority() {
            mime_format
        } else {
            binary_format
        }
    }

    /// The count of each format that was detected at least once, in
    /// declaration order of `AudioFormat`.
    pub fn get_detection_stats(&self) -> (r: Vec<(AudioFormat, u64)>)
        requires
            self.wf(),
        ensures
            r@.len() <= FORMAT_COUNT,
            forall|i: int| 0 <= i < r@.len() ==> r@[i].1 == self.count(r@[i].0) && r@[i].1 > 0,
            forall|f: AudioFormat| self.count(f) > 0 ==> exists|i: int| 0 <= i < r@.len() && r@[i].0 == f,
            forall|i: int, j: int| 0 <= i < j < r@.len() ==> slot_of(r@[i].0) < slot_of(r@[j].0),
    {
        let mut out: Vec<(AudioFormat, u64)> = Vec::new();
        let mut i: usize = 0;
        while i < FORMAT_COUNT
            invariant
                self.wf(),
                i <= FORMAT_COUNT,
                out@.len() <= i,
                forall|k: int| 0 <= k < out@.len() ==> out@[k].1 == self.count(out@[k].0) && out@[k].1 > 0
                    && slot_of(out@[k].0) < i,
                forall|k: int| 0 <= k < i && self.counts@[k] > 0 ==> exists|t: int| 0 <= t < out@.len() && #[trigger] out@[t].0 == format_at_slot(k),
                forall|a: int, b: int| 0 <= a < b < out@.len() ==> slot_of(out@[a].0) < slot_of(out@[b].0),
            decreases FORMAT_COUNT - i,
        {
            let f = Self::format_at(i);
            let c = self.counts[i];
            let ghost prev = out@;
            if c > 0 {
                out.push((f, c));
            }
            proof {
                assert forall|k: int| 0 <= k < i + 1 && self.counts@[k] > 0 implies exists|t: int|
                    0 <= t < out@.len() && #[trigger] out@[t].0 == format_at_slot(k) by {
                    if k < i {
                        let t = choose|t: int| 0 <= t < prev.len() && #[trigger] prev[t].0 == format_at_slot(k);
                        assert(out@[t] == prev[t]);
                    } else {
                        assert(out@[out@.len() - 1].0 == format_at_slot(k));
                    }
                }
            }
            i += 1;
        }
        assert forall|f: AudioFormat| self.count(f) > 0 implies exists|t: int| 0 <= t < out@.len() && out@[t].0 == f by {
            assert(format_at_slot(slot_of(f)) == f);
        }
        out
    }

    fn format_at(i: usize) -> (r: AudioFormat)
        requires
            i < FORMAT_COUNT,
        ensures
            r == format_at_slot(i as int),
            slot_of(r) == i as int,
    {
        if i == 0 {
            AudioFormat::WebmOpus
        } else if i == 1 {
            AudioFormat::OggOpus
        } else if i == 2 {
            AudioFormat::Mp4Aac
        } else if i == 3 {
            AudioFormat::Wav
        } else if i == 4 {
            AudioFormat::WebmVorbis
        } else {
            AudioFormat::Unknown
        }
    }

    /// How many detections resulted in `format`.
    pub fn detection_count(&self, format: AudioFormat) -> (r: u64)
        requires
            self.wf(),
        ensures
            r == self.count(format),
    {
        self.counts[Self::slot(format)]
    }

    /// Clears the histogram.
    pub fn reset_stats(&mut self)
        requires
            old(self).wf(),
        ensures
            final(self).wf(),
            forall|f: AudioFormat| final(self).count(f) == 0,
    {
        self.counts = vec![0, 0, 0, 0, 0, 0];
    }
}

/// `a` is listed before `b` in a report: more detections first, then
/// declaration order.
pub open spec fn ranked_before(a: (AudioFormat, u64), b: (AudioFormat, u64)) -> bool {
    a.1 > b.1 || (a.1 == b.1 && slot_of(a.0) < slot_of(b.0))
}

/// Decimal digit character.
pub open spec fn digit_char(d: nat) -> char {
    if d == 0 {
        '0'
    } else if d == 1 {
        '1'
    } else if d == 2 {
        '2'
    } else if d == 3 {
        '3'
    } else if d == 4 {
        '4'
    } else if d == 5 {
        '5'
    } else if d == 6 {
        '6'
    } else if d == 7 {
        '7'
    } else if d == 8 {
        '8'
    } else {
        '9'
    }
}

/// Decimal notation of `n`.
pub open spec fn decimal(n: nat) -> Seq<char>
    decreases n,
{
    if n < 10 {
        seq![digit_char(n)]
    } else {
        decimal(n / 10) + seq![digit_char(n % 10)]
    }
}

/// Debug name of a format.
pub open spec fn debug_name_of(f: AudioFormat) -> Seq<char> {
    match f {
        AudioFormat::WebmOpus => "WebmOpus"@,
        AudioFormat::OggOpus => "OggOpus"@,
        AudioFormat::Mp4Aac => "Mp4Aac"@,
        AudioFormat::Wav => "Wav"@,
        AudioFormat::WebmVorbis => "WebmVorbis"@,
        AudioFormat::Unknown => "Unknown"@,
    }
}

/// Share of `count` in `total`, in tenths of a percent, rounded half up.
pub open spec fn tenths_of_percent(count: nat, total: nat) -> nat {
    (count * 2000 + total) / (2 * total)
}

/// One report line.
pub open spec fn report_line(row: (AudioFormat, u64), total: nat) -> Seq<char> {
    let t = tenths_of_percent(row.1 as nat, total);
    "  "@ + debug_name_of(row.0) + ": "@ + decimal(row.1 as nat) + " 次 ("@ + decimal(t / 10) + "."@
        + decimal(t % 10) + "%) - "@ + crate::format::support_status_of(row.0) + "\n"@
}

/// The report lines of `rows`.
pub open spec fn report_lines(rows: Seq<(AudioFormat, u64)>, total: nat) -> Seq<char>
    decreases rows.len(),
{
    if rows.len() == 0 {
        Seq::empty()
    } else {
        report_lines(rows.drop_last(), total) + report_line(rows.last(), total)
    }
}

/// Sum of the counts of `rows`.
pub open spec fn rows_total(rows: Seq<(AudioFormat, u64)>) -> nat
    decreases rows.len(),
{
    if rows.len() == 0 {
        0
    } else {
        rows_total(rows.drop_last()) + rows.last().1 as nat
    }
}

/// The report for detection rows `rows`, already ranked.
pub open spec fn report_text(rows: Seq<(AudioFormat, u64)>) -> Seq<char> {
    if rows_total(rows) == 0 {
        "無檢測記錄"@
    } else {
        "📊 音頻格式檢測報告 (總計: "@ + decimal(rows_total(rows)) + " 次)\n"@ + report_lines(
            rows,
            rows_total(rows),
        )
    }
}

fn digit_str(d: u128) -> (r: &'static str)
    requires
        d < 10,
    ensures
        r@ == seq![digit_char(d as nat)],
{
    let r = if d == 0 {
        "0"
    } else if d == 1 {
        "1"
    } else if d == 2 {
        "2"
    } else if d == 3 {
        "3"
    } else if d == 4 {
        "4"
    } else if d == 5 {
        "5"
    } else if d == 6 {
        "6"
    } else if d == 7 {
        "7"
    } else if d == 8 {
        "8"
    } else {
        "9"
    };
    proof {
        reveal_strlit("0");
        reveal_strlit("1");
        reveal_strlit("2");
        reveal_strlit("3");
        reveal_strlit("4");
        reveal_strlit("5");
        reveal_strlit("6");
        reveal_strlit("7");
        reveal_strlit("8");
        reveal_strlit("9");
    }
    assert(r@ =~= seq![digit_char(d as nat)]);
    r
}

/// Appends the decimal notation of `n`.
pub(crate) fn append_decimal(out: &mut String, n: u128)
    ensures
        final(out)@ == old(out)@ + decimal(n as nat),
    decreases n,
{
    if n >= 10 {
        append_decimal(out, n / 10);
    }
    out.append(digit_str(n % 10));
    assert(final(out)@ =~= old(out)@ + decimal(n as nat));
}

fn debug_name(f: AudioFormat) -> (r: &'static str)
    ensures
        r@ == debug_name_of(f),
{
    match f {
        AudioFormat::WebmOpus => "WebmOpus",
        AudioFormat::OggOpus => "OggOpus",
        AudioFormat::Mp4Aac => "Mp4Aac",
        AudioFormat::Wav => "Wav",
        AudioFormat::WebmVorbis => "WebmVorbis",
        AudioFormat::Unknown => "Unknown",
    }
}

/// Renders ranked detection rows as a report.
pub fn render_report(rows: &[(AudioFormat, u64)]) -> (r: String)
    requires
        rows@.len() <= FORMAT_COUNT,
    ensures
        r@ == report_text(rows@),
{
    let mut total: u128 = 0;
    let mut i: usize = 0;
    while i < rows.len()
        invariant
            i <= rows@.len() <= FORMAT_COUNT,
            total as nat == rows_total(rows@.subrange(0, i as int)),
            total <= i * (u64::MAX as u128),
        decreases rows@.len() - i,
    {
        assert(rows@.subrange(0, i + 1).drop_last() =~= rows@.subrange(0, i as int));
        total = total + rows[i].1 as u128;
        i += 1;
    }
    assert(rows@.subrange(0, i as int) =~= rows@);
    if total == 0 {
        return String::from_str("無檢測記錄");
    }
    let mut out = String::from_str("📊 音頻格式檢測報告 (總計: ");
    append_decimal(&mut out, total);
    out.append(" 次)\n");
    let ghost head = out@;
    let mut k: usize = 0;
    while k < rows.len()
        invariant
            k <= rows@.len() <= FORMAT_COUNT,
            total as nat == rows_total(rows@),
            total > 0,
            total <= 6 * (u64::MAX as u128),
            out@ == head + report_lines(rows@.subrange(0, k as int), total as nat),
        decreases rows@.len() - k,
    {
        let (f, c) = rows[k];
        let ghost before = out@;
        let tenths: u128 = ((c as u128) * 2000 + total) / (2 * total);
        out.append("  ");
        out.append(debug_name(f));
        out.append(": ");
        append_decimal(&mut out, c as u128);
        out.append(" 次 (");
        append_decimal(&mut out, tenths / 10);
        out.append(".");
        append_decimal(&mut out, tenths % 10);
        out.append("%) - ");
        out.append(f.support_status());
        out.append("\n");
        assert(rows@.subrange(0, k + 1).drop_last() =~= rows@.subrange(0, k as int));
        assert(rows@.subrange(0, k + 1).last() == (f, c));
        assert(out@ =~= before + report_line((f, c), total as nat));
        k += 1;
    }
    assert(rows@.subrange(0, k as int) =~= rows@);
    out
}

impl AudioFormatDetector {
    /// The formats detected at least once with their counts, most detected
    /// first (ties in declaration order).
    pub fn report_rows(&self) -> (r: Vec<(AudioFormat, u64)>)
        requires
            self.wf(),
        ensures
            r@.len() <= FORMAT_COUNT,
            forall|i: int| 0 <= i < r@.len() ==> r@[i].1 == self.count(r@[i].0) && r@[i].1 > 0,
            forall|f: AudioFormat| self.count(f) > 0 ==> exists|i: int| 0 <= i < r@.len() && r@[i].0 == f,
            forall|i: int, j: int| 0 <= i < j < r@.len() ==> ranked_before(r@[i], r@[j]),
    {
        let mut rest = self.get_detection_stats();
        let mut out: Vec<(AudioFormat, u64)> = Vec::new();
        while rest.len() > 0
            invariant
                self.wf(),
                out@.len() + rest@.len() <= FORMAT_COUNT,
                forall|i: int| 0 <= i < out@.len() ==> out@[i].1 == self.count(out@[i].0) && out@[i].1 > 0,
                forall|i: int| 0 <= i < rest@.len() ==> rest@[i].1 == self.count(rest@[i].0) && rest@[i].1 > 0,
                forall|f: AudioFormat| self.count(f) > 0 ==> (exists|i: int| 0 <= i < out@.len() && out@[i].0 == f)
                    || (exists|i: int| 0 <= i < rest@.len() && rest@[i].0 == f),
                forall|i: int, j: int| 0 <= i < j < out@.len() ==> ranked_before(out@[i], out@[j]),
                forall|i: int, j: int| 0 <= i < out@.len() && 0 <= j < rest@.len() ==> ranked_before(out@[i], rest@[j]),
                forall|i: int, j: int| 0 <= i < rest@.len() && 0 <= j < rest@.len() && i != j ==> slot_of(rest@[i].0) != slot_of(rest@[j].0),
            decreases rest@.len(),
        {
            let mut b: usize = 0;
            let mut j: usize = 1;
            while j < rest.len()
                invariant
                    0 < rest@.len(),
                    b < rest@.len(),
                    1 <= j <= rest@.len(),
                    b < j,
                    forall|k: int| 0 <= k < j && k != b ==> ranked_before(rest@[b as int], rest@[k]),
                    forall|i: int, t: int| 0 <= i < rest@.len() && 0 <= t < rest@.len() && i != t ==> slot_of(rest@[i].0) != slot_of(rest@[t].0),
                decreases rest@.len() - j,
            {
                let cand = rest[j];
                let cur = rest[b];
                if cand.1 > cur.1 || (cand.1 == cur.1 && Self::slot(cand.0) < Self::slot(cur.0)) {
                    proof {
                        assert forall|k: int| 0 <= k < j + 1 && k != j implies ranked_before(rest@[j as int], rest@[k]) by {
                            if k != b {
                                assert(ranked_before(rest@[b as int], rest@[k]));
                            }
                        }
                    }
                    b = j;
                } else {
                    proof {
                        assert(slot_of(rest@[b as int].0) != slot_of(rest@[j as int].0));
                        assert(ranked_before(rest@[b as int], rest@[j as int]));
                    }
                }
                j += 1;
            }
            let ghost prev_rest = rest@;
            let ghost prev_out = out@;
            let best = rest.remove(b);
            out.push(best);
            proof {
                assert(best == prev_rest[b as int]);
                assert forall|i: int| 0 <= i < rest@.len() implies #[trigger] rest@[i] == prev_rest[if i < b { i } else { i + 1 }] by {}
                assert forall|f: AudioFormat| self.count(f) > 0 implies (exists|i: int| 0 <= i < out@.len() && out@[i].0 == f)
                    || (exists|i: int| 0 <= i < rest@.len() && rest@[i].0 == f) by {
                    if exists|i: int| 0 <= i < prev_out.len() && prev_out[i].0 == f {
                        let i = choose|i: int| 0 <= i < prev_out.len() && prev_out[i].0 == f;
                        assert(out@[i] == prev_out[i]);
                    } else {
                        let i = choose|i: int| 0 <= i < prev_rest.len() && prev_rest[i].0 == f;
                        if i == b {
                            assert(out@[prev_out.len() as int] == best);
                        } else if i < b {
                            assert(rest@[i] == prev_rest[i]);
                        } else {
                            assert(rest@[i - 1] == prev_rest[i]);
                        }
                    }
                }
                assert forall|i: int, j: int| 0 <= i < j < out@.len() implies ranked_before(out@[i], out@[j]) by {
                    if j == out@.len() - 1 {
                        assert(out@[i] == prev_out[i]);
                        assert(out@[j] == prev_rest[b as int]);
                    } else {
                        assert(out@[i] == prev_out[i]);
                        assert(out@[j] == prev_out[j]);
                    }
                }
                assert forall|i: int, j: int| 0 <= i < out@.len() && 0 <= j < rest@.len() implies ranked_before(out@[i], rest@[j]) by {
                    let j0 = if j < b { j } else { j + 1 };
                    assert(rest@[j] == prev_rest[j0]);
                    if i == out@.len() - 1 {
                        assert(out@[i] == prev_rest[b as int]);
                        assert(j0 != b);
                    } else {
                        assert(out@[i] == prev_out[i]);
                    }
                }
                assert forall|i: int, j: int| 0 <= i < rest@.len() && 0 <= j < rest@.len() && i != j implies slot_of(rest@[i].0) != slot_of(rest@[j].0) by {
                    let i0 = if i < b { i } else { i + 1 };
                    let j0 = if j < b { j } else { j + 1 };
                    assert(rest@[i] == prev_rest[i0]);
                    assert(rest@[j] == prev_rest[j0]);
                }
                assert forall|i: int| 0 <= i < out@.len() implies out@[i].1 == self.count(out@[i].0) && out@[i].1 > 0 by {
                    if i < prev_out.len() {
                        assert(out@[i] == prev_out[i]);
                    }
                }
            }
        }
        out
    }

    /// A text report of the detection histogram, most detected format
    /// first, with each format's share to a tenth of a percent.
    pub fn generate_report(&self) -> (r: String)
        requires
            self.wf(),
        ensures
            exists|rows: Seq<(AudioFormat, u64)>| {
                &&& r@ == report_text(rows)
                &&& rows.len() <= FORMAT_COUNT
                &&& forall|i: int| 0 <= i < rows.len() ==> rows[i].1 == self.count(rows[i].0) && rows[i].1 > 0
                &&& forall|f: AudioFormat| self.count(f) > 0 ==> exists|i: int| 0 <= i < rows.len() && rows[i].0 == f
                &&& forall|i: int, j: int| 0 <= i < j < rows.len() ==> ranked_before(rows[i], rows[j])
            },
    {
        let rows = self.report_rows();
        render_report(rows.as_slice())
    }
}

} // verus!
