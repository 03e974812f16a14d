//! Configuration values and statistics snapshots.

use vstd::prelude::*;

use crate::format::AudioFormat;

verus! {

/// Settings of an Opus decoder session and of the pool that holds them.
#[derive(Debug, Clone, Copy, PartialEq, Eq, Structural)]
pub struct OpusDecoderConfig {
    /// Output sample rate in Hz.
    pub sample_rate: u32,
    /// Output channel count.
    pub channels: u32,
    /// Target bitrate in bits per second.
    pub bit_rate: u32,
    /// Peak-normalise the decoded stream.
    pub enable_normalization: bool,
    /// Number of sessions built in advance.
    pub pool_size: usize,
}

impl OpusDecoderConfig {
    /// The configuration of the 48 kHz mono pool that serves uploads.
    pub fn for_uploads() -> (r: Self)
        ensures
            r.sample_rate == 48000 && r.channels == 1 && r.bit_rate == 96000
                && r.enable_normalization && r.pool_size == 4,
    {
        OpusDecoderConfig {
            sample_rate: 48000,
            channels: 1,
            bit_rate: 96000,
            enable_normalization: true,
            pool_size: 4,
        }
    }
}

impl Default for OpusDecoderConfig {
    /// 16 kHz mono, 64 kbit/s, normalised, four sessions.
    fn default() -> (r: Self)
        ensures
            r.sample_rate == 16000 && r.channels == 1 && r.bit_rate == 64000
                && r.enable_normalization && r.pool_size == 4,
    {
        OpusDecoderConfig {
            sample_rate: 16000,
            channels: 1,
            bit_rate: 64000,
            enable_normalization: true,
            pool_size: 4,
        }
    }
}

/// Sizing of the optional accelerator's memory pool, in megabytes.
#[derive(Debug, Clone, Copy, PartialEq, Eq, Structural)]
pub struct GpuMemoryConfig {
    pub pre_allocated_mb: usize,
    pub max_memory_mb: usize,
    pub block_size_mb: usize,
    pub enable_memory_pool: bool,
}

impl Default for GpuMemoryConfig {
    /// 512 MB pre-allocated, 4 GB at most, 64 MB blocks, pooling on.
    fn default() -> (r: Self)
        ensures
            r.pre_allocated_mb == 512 && r.max_memory_mb == 4096 && r.block_size_mb == 64
                && r.enable_memory_pool,
    {
        GpuMemoryConfig {
            pre_allocated_mb: 512,
            max_memory_mb: 4096,
            block_size_mb: 64,
            enable_memory_pool: true,
        }
    }
}

/// Snapshot of the unified decoder: Opus pool occupancy and the detection
/// histogram (formats detected at least once, with their counts).
#[derive(Debug, Clone)]
pub struct DecoderStats {
    pub opus_pool_total: usize,
    pub opus_pool_available: usize,
    pub opus_pool_in_use: usize,
    pub format_detections: Vec<(AudioFormat, u64)>,
}

} // verus!
