use audio_ingest::config::{GpuMemoryConfig, OpusDecoderConfig};
use audio_ingest::decode::{decode_plan, exhausted_error, needs_downsampling, DecodeStrategy, DemuxHint};
use audio_ingest::error::DecodeError;
use audio_ingest::format::AudioFormat;
use audio_ingest::quality::TranscriptionQuality;
use audio_ingest::resample::{
    fast_tier_keeps, lanczos_taps, nearest_tap, resample_tier, resampled_len, ResampleTier,
};

#[test]
fn resampled_lengths() {
    assert_eq!(resampled_len(0), 0);
    assert_eq!(resampled_len(1), 1);
    assert_eq!(resampled_len(3), 1);
    assert_eq!(resampled_len(4), 2);
    assert_eq!(resampled_len(47999), 16000);
    assert_eq!(resampled_len(48000), 16000);
    assert_eq!(resampled_len(48002), 16000);
    assert_eq!(resampled_len(96000), 32000);
    for len in 0..200_000usize {
        let out = resampled_len(len);
        assert!(out * 3 + 3 >= len && out * 3 <= len + 2);
    }
}

#[test]
fn tiers_and_taps() {
    assert_eq!(resample_tier(47999), ResampleTier::Fast);
    assert_eq!(resample_tier(48000), ResampleTier::HighQuality);
    assert!(fast_tier_keeps(0) && fast_tier_keeps(3) && !fast_tier_keeps(4));
    assert_eq!(lanczos_taps(0, 48000), (0, 3));
    assert_eq!(lanczos_taps(1, 48000), (0, 6));
    assert_eq!(lanczos_taps(100, 48000), (297, 303));
    assert_eq!(lanczos_taps(15999, 48000), (47994, 48000));
    assert_eq!(nearest_tap(15999, 48000), 47997);
}

#[test]
fn decode_plans() {
    assert_eq!(decode_plan(AudioFormat::OggOpus), vec![DecodeStrategy::OpusPool]);
    assert_eq!(
        decode_plan(AudioFormat::Unknown),
        vec![
            DecodeStrategy::WavReader,
            DecodeStrategy::Demux(DemuxHint::Ogg),
            DecodeStrategy::Demux(DemuxHint::NoHint),
        ]
    );
    assert_eq!(
        decode_plan(AudioFormat::WebmOpus),
        vec![
            DecodeStrategy::OpusPool,
            DecodeStrategy::WavReader,
            DecodeStrategy::Demux(DemuxHint::Ogg),
            DecodeStrategy::Demux(DemuxHint::NoHint),
        ]
    );
    assert_eq!(exhausted_error(AudioFormat::Mp4Aac), DecodeError::Mp4AacUnsupported);
    assert_eq!(exhausted_error(AudioFormat::Unknown), DecodeError::FormatUnrecognized);
    assert_eq!(exhausted_error(AudioFormat::WebmOpus), DecodeError::CodecDecodeFailed);
    assert!(needs_downsampling(48000));
    assert!(!needs_downsampling(16000));
    assert!(!DecodeError::Mp4AacUnsupported.message().is_empty());
}

#[test]
fn quality_tiers() {
    assert_eq!(TranscriptionQuality::Turbo.model_name(), "ggml-tiny.bin");
    assert_eq!(TranscriptionQuality::Premium.model_name(), "ggml-large-v3.bin");
    assert_eq!(TranscriptionQuality::Medium.target_latency_ms(), 150);
    assert!(TranscriptionQuality::Medium.is_chinese_optimized());
    assert!(!TranscriptionQuality::Balanced.is_chinese_optimized());
    assert!(TranscriptionQuality::Premium.is_taiwanese_capable());
    assert_eq!(TranscriptionQuality::adaptive(0, Some(100)), TranscriptionQuality::Turbo);
    assert_eq!(TranscriptionQuality::adaptive(0, Some(200)), TranscriptionQuality::Medium);
    assert_eq!(TranscriptionQuality::adaptive(0, Some(201)), TranscriptionQuality::Premium);
    assert_eq!(TranscriptionQuality::adaptive(80_015, None), TranscriptionQuality::Turbo);
    assert_eq!(TranscriptionQuality::adaptive(80_016, None), TranscriptionQuality::Medium);
    assert_eq!(TranscriptionQuality::adaptive(480_016, None), TranscriptionQuality::Premium);
    assert_eq!(TranscriptionQuality::for_chinese(10, true), TranscriptionQuality::Premium);
    assert_eq!(TranscriptionQuality::for_chinese(160_015, false), TranscriptionQuality::Medium);
    assert_eq!(TranscriptionQuality::for_chinese(160_016, false), TranscriptionQuality::Premium);
}

#[test]
fn configuration_defaults() {
    let c = OpusDecoderConfig::default();
    assert_eq!((c.sample_rate, c.channels, c.bit_rate, c.pool_size), (16000, 1, 64000, 4));
    assert!(c.enable_normalization);
    let u = OpusDecoderConfig::for_uploads();
    assert_eq!(u.sample_rate, 48000);
    let g = GpuMemoryConfig::default();
    assert_eq!((g.pre_allocated_mb, g.max_memory_mb, g.block_size_mb), (512, 4096, 64));
}
