//! Bookkeeping of the Opus stream decode loop: which packets are decoded,
//! when forward error correction (FEC) is attempted, how many samples each
//! packet contributes, and when the stream as a whole has failed.
//!
//! The decoder itself is driven by the caller: for each packet it asks
//! `plan_packet`, makes the primary decode call, asks `needs_fec`, makes the
//! FEC call if told to, and then hands both outcomes to `record`.

use vstd::prelude::*;

use crate::error::DecodeError;

verus! {

/// Packets shorter than this are rejected without a decode call.
pub const MIN_PACKET_BYTES: usize = 2;

/// Largest legal Opus packet; longer packets are decoded but flagged.
pub const MAX_PACKET_BYTES: usize = 1275;

/// Largest Opus frame: 120 ms at 48 kHz.
pub const MAX_FRAME_SAMPLES: usize = 5760;

/// Result of one decoder call.
#[derive(Debug, Clone, Copy, PartialEq, Eq, Structural)]
pub enum DecodeOutcome {
    /// The call succeeded and wrote this many samples.
    Samples(usize),
    /// The call returned an error.
    Failed,
}

/// Everything that happened to one packet: its length, the primary decode
/// outcome, and the FEC outcome (`Failed` when no FEC call was made).
#[derive(Debug, Clone, Copy, PartialEq, Eq, Structural)]
pub struct PacketTrace {
    pub len: usize,
    pub primary: DecodeOutcome,
    pub fec: DecodeOutcome,
}

/// What to do with a packet before decoding it.
#[derive(Debug, Clone, Copy, PartialEq, Eq, Structural)]
pub enum PacketPlan {
    /// Too short to be a packet: skip it.
    Reject,
    /// Decode it; `oversized` flags a packet longer than any legal one.
    Decode { oversized: bool },
}

pub open spec fn samples_of(o: DecodeOutcome) -> nat {
    match o {
        DecodeOutcome::Samples(n) => n as nat,
        DecodeOutcome::Failed => 0,
    }
}

/// No call reports more samples than the scratch buffer holds.
pub open spec fn outcome_fits(o: DecodeOutcome) -> bool {
    samples_of(o) <= MAX_FRAME_SAMPLES
}

pub open spec fn trace_fits(t: PacketTrace) -> bool {
    outcome_fits(t.primary) && outcome_fits(t.fec)
}

/// Samples a packet adds to the output: the primary decode when it yields
/// samples, else what FEC recovered, and nothing for a rejected packet.
pub open spec fn contribution(t: PacketTrace) -> nat {
    if t.len < MIN_PACKET_BYTES {
        0
    } else if samples_of(t.primary) > 0 {
        samples_of(t.primary)
    } else {
        samples_of(t.fec)
    }
}

/// Total output length of a stream of packets.
pub open spec fn stream_total(s: Seq<PacketTrace>) -> nat
    decreases s.len(),
{
    if s.len() == 0 {
        0
    } else {
        stream_total(s.drop_last()) + contribution(s.last())
    }
}

pub open spec fn plan_of(len: usize) -> PacketPlan {
    if len < MIN_PACKET_BYTES {
        PacketPlan::Reject
    } else {
        PacketPlan::Decode { oversized: len > MAX_PACKET_BYTES }
    }
}

/// Decides whether a packet of `len` bytes is decoded.
pub fn plan_packet(len: usize) -> (r: PacketPlan)
    ensures
        r == plan_of(len),
{
    if len < MIN_PACKET_BYTES {
        PacketPlan::Reject
    } else {
        PacketPlan::Decode { oversized: len > MAX_PACKET_BYTES }
    }
}

/// After the primary decode: is an FEC recovery call due? It is on a
/// failure and on a success that yielded no samples.
pub fn needs_fec(primary: DecodeOutcome) -> (r: bool)
    ensures
        r == (samples_of(primary) == 0),
{
    match primary {
        DecodeOutcome::Samples(n) => n == 0,
        DecodeOutcome::Failed => true,
    }
}

/// Per-stream counters, for diagnostics.
#[derive(Debug, Clone, Copy, PartialEq, Eq, Structural)]
pub struct StreamDecodeStats {
    /// Packets whose primary decode yielded samples.
    pub successful: u64,
    /// Packets recovered by FEC.
    pub recovered: u64,
    /// Packets whose primary decode returned an error.
    pub failed: u64,
    /// Packets whose primary decode succeeded with zero samples.
    pub zero_sample: u64,
    /// Packets that contributed nothing although they were decoded.
    pub lost: u64,
    /// Packets rejected as too short.
    pub rejected: u64,
    /// Packets longer than the largest legal Opus packet.
    pub oversized: u64,
}

pub open spec fn bump(c: u64, yes: bool) -> u64 {
    if yes && c < u64::MAX {
        (c + 1) as u64
    } else {
        c
    }
}

/// The counters after one more packet with trace `t`.
pub open spec fn stats_after(s: StreamDecodeStats, t: PacketTrace) -> StreamDecodeStats {
    let decoded = t.len >= MIN_PACKET_BYTES;
    let primary_ok = samples_of(t.primary) > 0;
    StreamDecodeStats {
        successful: bump(s.successful, decoded && primary_ok),
        recovered: bump(s.recovered, decoded && !primary_ok && samples_of(t.fec) > 0),
        failed: bump(s.failed, decoded && t.primary == DecodeOutcome::Failed),
        zero_sample: bump(s.zero_sample, decoded && t.primary == DecodeOutcome::Samples(0)),
        lost: bump(s.lost, decoded && contribution(t) == 0),
        rejected: bump(s.rejected, !decoded),
        oversized: bump(s.oversized, decoded && t.len > MAX_PACKET_BYTES),
    }
}

fn bump_exec(c: u64, yes: bool) -> (r: u64)
    ensures
        r == bump(c, yes),
{
    if yes && c < u64::MAX {
        c + 1
    } else {
        c
    }
}

/// Running state of one stream decode.
pub struct StreamTally {
    stats: StreamDecodeStats,
    total: u64,
    history: Ghost<Seq<PacketTrace>>,
}

impl StreamTally {
    /// The packets recorded so far.
    pub closed spec fn history(&self) -> Seq<PacketTrace> {
        self.history@
    }

    /// Samples appended so far.
    pub closed spec fn total_spec(&self) -> nat {
        self.total as nat
    }

    pub closed spec fn stats_spec(&self) -> StreamDecodeStats {
        self.stats
    }

    pub closed spec fn wf(&self) -> bool {
        self.total as nat == stream_total(self.history@)
    }

    /// A tally with nothing recorded.
    pub fn new() -> (r: Self)
        ensures
            r.wf(),
            r.history() == Seq::<PacketTrace>::empty(),
            r.total_spec() == 0,
            r.stats_spec() == (StreamDecodeStats {
                successful: 0,
                recovered: 0,
                failed: 0,
                zero_sample: 0,
                lost: 0,
                rejected: 0,
                oversized: 0,
            }),
    {
        StreamTally {
            stats: StreamDecodeStats {
                successful: 0,
                recovered: 0,
                failed: 0,
                zero_sample: 0,
                lost: 0,
                rejected: 0,
                oversized: 0,
            },
            total: 0,
            history: Ghost(Seq::empty()),
        }
    }

    /// Samples appended so far.
    pub fn total_samples(&self) -> (r: u64)
        ensures
            r as nat == self.total_spec(),
    {
        self.total
    }

    /// The diagnostic counters.
    pub fn stats(&self) -> (r: StreamDecodeStats)
        ensures
            r == self.stats_spec(),
    {
        self.stats
    }

    /// Records the outcome of one packet and returns how many of the
    /// samples it yielded are appended to the output (`0` for a rejected
    /// or lost packet). For a rejected packet pass `Failed` twice; when no
    /// FEC call was made pass `Failed` as `fec`.
    pub fn record(&mut self, len: usize, primary: DecodeOutcome, fec: DecodeOutcome) -> (appended:
        usize)
        requires
            old(self).wf(),
            outcome_fits(primary),
            outcome_fits(fec),
            old(self).total_spec() + MAX_FRAME_SAMPLES <= u64::MAX,
        ensures
            final(self).wf(),
            appended as nat == contribution(PacketTrace { len, primary, fec }),
            final(self).history() == old(self).history().push(PacketTrace { len, primary, fec }),
            final(self).total_spec() == old(self).total_spec() + appended,
            final(self).stats_spec() == stats_after(
                old(self).stats_spec(),
                PacketTrace { len, primary, fec },
            ),
    {
        let t = PacketTrace { len, primary, fec };
        let decoded = len >= MIN_PACKET_BYTES;
        let p: usize = match primary {
            DecodeOutcome::Samples(n) => n,
            DecodeOutcome::Failed => 0,
        };
        let f: usize = match fec {
            DecodeOutcome::Samples(n) => n,
            DecodeOutcome::Failed => 0,
        };
        let appended: usize = if !decoded {
            0
        } else if p > 0 {
            p
        } else {
            f
        };
        let s = self.stats;
        self.stats = StreamDecodeStats {
            successful: bump_exec(s.successful, decoded && p > 0),
            recovered: bump_exec(s.recovered, decoded && p == 0 && f > 0),
            failed: bump_exec(s.failed, decoded && primary == DecodeOutcome::Failed),
            zero_sample: bump_exec(s.zero_sample, decoded && primary == DecodeOutcome::Samples(0)),
            lost: bump_exec(s.lost, decoded && appended == 0),
            rejected: bump_exec(s.rejected, !decoded),
            oversized: bump_exec(s.oversized, decoded && len > MAX_PACKET_BYTES),
        };
        self.total = self.total + appended as u64;
        proof {
            let h = self.history@.push(t);
            assert(h.drop_last() =~= self.history@);
            self.history@ = h;
        }
        appended
    }

    /// Outcome of the stream: the output length when some packet yielded
    /// samples, else `CodecDecodeFailed`.
    pub fn finish(&self) -> (r: Result<u64, DecodeError>)
        ensures
            self.total_spec() > 0 ==> r == Ok::<u64, DecodeError>(self.total_spec() as u64),
            self.total_spec() == 0 ==> r == Err::<u64, DecodeError>(DecodeError::CodecDecodeFailed),
    {
        if self.total > 0 {
            Ok(self.total)
        } else {
            Err(DecodeError::CodecDecodeFailed)
        }
    }
}

/// Is a decoded buffer folded from interleaved stereo to mono? Only when
/// it was decoded as two channels, mono output is wanted, and it holds
/// whole channel pairs.
pub fn downmix_applies(decoded_channels: u32, target_channels: u32, sample_count: usize) -> (r: bool)
    ensures
        r == (decoded_channels == 2 && target_channels == 1 && sample_count % 2 == 0),
{
    decoded_channels == 2 && target_channels == 1 && sample_count % 2 == 0
}

/// Replays a whole stream's packet outcomes through a tally: the output
/// length when some packet yielded samples, else `CodecDecodeFailed`.
pub fn tally_stream(traces: &[PacketTrace]) -> (r: Result<u64, DecodeError>)
    requires
        forall|i: int| 0 <= i < traces@.len() ==> trace_fits(#[trigger] traces@[i]),
        traces@.len() * MAX_FRAME_SAMPLES <= u64::MAX,
    ensures
        stream_total(traces@) <= traces@.len() * MAX_FRAME_SAMPLES,
        stream_total(traces@) > 0 ==> r == Ok::<u64, DecodeError>(stream_total(traces@) as u64),
        stream_total(traces@) == 0 ==> r == Err::<u64, DecodeError>(DecodeError::CodecDecodeFailed),
{
    let mut tally = StreamTally::new();
    let mut i: usize = 0;
    while i < traces.len()
        invariant
            i <= traces@.len(),
            tally.wf(),
            tally.history() == traces@.subrange(0, i as int),
            forall|k: int| 0 <= k < traces@.len() ==> trace_fits(#[trigger] traces@[k]),
            traces@.len() * MAX_FRAME_SAMPLES <= u64::MAX,
            tally.total_spec() <= i * MAX_FRAME_SAMPLES,
        decreases traces@.len() - i,
    {
        let t = traces[i];
        proof {
            assert(trace_fits(traces@[i as int]));
            assert((i + 1) * MAX_FRAME_SAMPLES <= traces@.len() * MAX_FRAME_SAMPLES) by (nonlinear_arith)
                requires i + 1 <= traces@.len();
        }
        tally.record(t.len, t.primary, t.fec);
        assert(traces@.subrange(0, i + 1) =~= traces@.subrange(0, i as int).push(t));
        i += 1;
    }
    assert(traces@.subrange(0, i as int) =~= traces@);
    tally.finish()
}

/// The stream total is at least what any single packet contributes.
pub proof fn lemma_total_covers_packet(s: Seq<PacketTrace>, j: int)
    requires
        0 <= j < s.len(),
    ensures
        stream_total(s) >= contribution(s[j]),
    decreases s.len(),
{
    if j < s.len() - 1 {
        lemma_total_covers_packet(s.drop_last(), j);
    }
}

/// Two streams that agree on every packet but the one at `k` have totals
/// that differ by exactly the difference of that packet's contributions.
pub proof fn lemma_total_differs_at(good: Seq<PacketTrace>, bad: Seq<PacketTrace>, k: int)
    requires
        good.len() == bad.len(),
        0 <= k < good.len(),
        forall|i: int| 0 <= i < good.len() && i != k ==> good[i] == bad[i],
    ensures
        stream_total(good) + contribution(bad[k]) == stream_total(bad) + contribution(good[k]),
    decreases good.len(),
{
    if k == good.len() - 1 {
        assert(good.drop_last() =~= bad.drop_last());
    } else {
        lemma_total_differs_at(good.drop_last(), bad.drop_last(), k);
    }
}

/// Replacing one packet of a stream by garbage changes the decoded length by
/// at most one frame, where no call on either version of that packet
/// reports more than `frame` samples; and the output stays non-empty as
/// long as some other packet yielded samples.
pub proof fn lemma_corrupt_packet_within_frame(
    good: Seq<PacketTrace>,
    bad: Seq<PacketTrace>,
    k: int,
    frame: nat,
)
    requires
        good.len() == bad.len(),
        0 <= k < good.len(),
        forall|i: int| 0 <= i < good.len() && i != k ==> good[i] == bad[i],
        samples_of(good[k].primary) <= frame && samples_of(good[k].fec) <= frame,
        samples_of(bad[k].primary) <= frame && samples_of(bad[k].fec) <= frame,
    ensures
        stream_total(good) <= stream_total(bad) + frame,
        stream_total(bad) <= stream_total(good) + frame,
        (exists|j: int| 0 <= j < good.len() && j != k && contribution(#[trigger] good[j]) > 0)
            ==> stream_total(bad) > 0,
{
    lemma_total_differs_at(good, bad, k);
    if exists|j: int| 0 <= j < good.len() && j != k && contribution(#[trigger] good[j]) > 0 {
        let j = choose|j: int| 0 <= j < good.len() && j != k && contribution(#[trigger] good[j]) > 0;
        lemma_total_covers_packet(bad, j);
    }
}

/// The same with the largest Opus frame as the bound: any packet whose
/// decode calls fit the scratch buffer.
pub proof fn lemma_one_corrupt_packet(good: Seq<PacketTrace>, bad: Seq<PacketTrace>, k: int)
    requires
        good.len() == bad.len(),
        0 <= k < good.len(),
        forall|i: int| 0 <= i < good.len() && i != k ==> good[i] == bad[i],
        trace_fits(good[k]),
        trace_fits(bad[k]),
    ensures
        stream_total(good) <= stream_total(bad) + MAX_FRAME_SAMPLES,
        stream_total(bad) <= stream_total(good) + MAX_FRAME_SAMPLES,
        (exists|j: int| 0 <= j < good.len() && j != k && contribution(#[trigger] good[j]) > 0)
            ==> stream_total(bad) > 0,
{
    lemma_corrupt_packet_within_frame(good, bad, k, MAX_FRAME_SAMPLES as nat);
}

/// A stream in which every packet decodes to `frame` samples on its first
/// try yields `frame` samples per packet.
pub proof fn lemma_uniform_stream_total(s: Seq<PacketTrace>, frame: nat)
    requires
        frame > 0,
        forall|i: int| 0 <= i < s.len() ==> #[trigger] s[i].len >= MIN_PACKET_BYTES && samples_of(s[i].primary) == frame,
    ensures
        stream_total(s) == frame * s.len(),
    decreases s.len(),
{
    if s.len() > 0 {
        lemma_uniform_stream_total(s.drop_last(), frame);
        assert(s.last() == s[s.len() - 1]);
        assert(frame * s.len() == frame * (s.len() - 1) + frame) by (nonlinear_arith);
    }
}

} // verus!
