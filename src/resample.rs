//! Geometry of the 48 kHz to 16 kHz conversion: which tier runs, how long
//! the output is, and which input samples feed each output sample. The
//! filter arithmetic itself works on floating-point samples and is applied
//! by the caller along these index plans.

use vstd::prelude::*;

use crate::stream::{
    lemma_uniform_stream_total, samples_of, stream_total, PacketTrace, MIN_PACKET_BYTES,
};

verus! {

/// Inputs shorter than this (one second at 48 kHz) take the fast tier.
pub const FAST_TIER_MAX_INPUT: usize = 48000;

/// Lanczos window parameter `a`: each output sums `2a` input taps.
pub const LANCZOS_A: usize = 3;

/// Which algorithm converts a buffer.
#[derive(Debug, Clone, Copy, PartialEq, Eq, Structural)]
pub enum ResampleTier {
    /// Fixed biquad low-pass, then keep every third sample.
    Fast,
    /// Parameterised Butterworth low-pass, then Lanczos interpolation.
    HighQuality,
}

pub open spec fn tier_of(len: nat) -> ResampleTier {
    if len < FAST_TIER_MAX_INPUT {
        ResampleTier::Fast
    } else {
        ResampleTier::HighQuality
    }
}

/// Output length for an input of `len` samples: the fast tier keeps the
/// samples at indices divisible by three, the high-quality tier evaluates
/// `floor(len / 3)` output positions.
pub open spec fn output_len(len: nat) -> nat {
    match tier_of(len) {
        ResampleTier::Fast => (len + 2) / 3,
        ResampleTier::HighQuality => len / 3,
    }
}

/// The tier for an input of `len` samples.
pub fn resample_tier(len: usize) -> (r: ResampleTier)
    ensures
        r == tier_of(len as nat),
{
    if len < FAST_TIER_MAX_INPUT {
        ResampleTier::Fast
    } else {
        ResampleTier::HighQuality
    }
}

/// Length of the 16 kHz output for `len` input samples at 48 kHz.
pub fn resampled_len(len: usize) -> (r: usize)
    ensures
        r as nat == output_len(len as nat),
        r * 3 <= len + 2,
        len <= r * 3 + 3,
{
    if len < FAST_TIER_MAX_INPUT {
        len / 3 + if len % 3 == 0 { 0 } else { 1 }
    } else {
        len / 3
    }
}

/// Does the fast tier keep the input sample at `index`?
pub fn fast_tier_keeps(index: usize) -> (r: bool)
    ensures
        r == (index % 3 == 0),
{
    index % 3 == 0
}

/// Input taps `[start, end)` that feed output sample `out_index` of the
/// high-quality tier: the `2a` samples around source position
/// `3 * out_index`, clipped to the buffer.
pub fn lanczos_taps(out_index: usize, input_len: usize) -> (r: (usize, usize))
    requires
        out_index < output_len(input_len as nat),
        tier_of(input_len as nat) == ResampleTier::HighQuality,
    ensures
        r.0 == (if 3 * out_index >= LANCZOS_A { 3 * out_index - LANCZOS_A } else { 0 }),
        r.1 == (if 3 * out_index + LANCZOS_A <= input_len { 3 * out_index + LANCZOS_A } else {
            input_len as int
        }),
        r.0 < r.1 <= input_len,
{
    let centre = out_index * 3;
    let start = if centre >= LANCZOS_A { centre - LANCZOS_A } else { 0 };
    let end = if input_len - centre >= LANCZOS_A { centre + LANCZOS_A } else { input_len };
    (start, end)
}

/// Index used when no tap carries weight: the source position itself,
/// clipped to the buffer.
pub fn nearest_tap(out_index: usize, input_len: usize) -> (r: usize)
    requires
        out_index < output_len(input_len as nat),
        tier_of(input_len as nat) == ResampleTier::HighQuality,
    ensures
        r == 3 * out_index,
        r < input_len,
{
    out_index * 3
}

/// For every input length the output is a third of it, to within one
/// sample.
pub proof fn lemma_output_is_a_third(len: nat)
    ensures
        3 * output_len(len) <= len + 3,
        len <= 3 * output_len(len) + 3,
{
}

/// Whole seconds at 48 kHz convert to exactly as many seconds at 16 kHz.
pub proof fn lemma_whole_seconds(seconds: nat)
    ensures
        output_len(48000 * seconds) == 16000 * seconds,
{
    if seconds == 0 {
    } else {
        assert(48000 * seconds >= 48000) by (nonlinear_arith)
            requires seconds >= 1;
        assert((48000 * seconds) / 3 == 16000 * seconds) by (nonlinear_arith);
    }
}

/// Decoding `seconds` seconds of 20 ms Opus frames at 48 kHz (960 samples
/// each, all decoded on the first try) and converting to 16 kHz gives
/// exactly `16000 * seconds` samples.
pub proof fn lemma_round_trip_length(traces: Seq<PacketTrace>, seconds: nat)
    requires
        traces.len() == 50 * seconds,
        forall|i: int| 0 <= i < traces.len() ==> #[trigger] traces[i].len >= MIN_PACKET_BYTES && samples_of(traces[i].primary) == 960,
    ensures
        output_len(stream_total(traces)) == 16000 * seconds,
{
    lemma_uniform_stream_total(traces, 960);
    assert(960 * (50 * seconds) == 48000 * seconds) by (nonlinear_arith);
    lemma_whole_seconds(seconds);
}

} // verus!
