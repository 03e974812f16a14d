use audio_ingest::detector::{render_report, AudioFormatDetector};
use audio_ingest::format::AudioFormat;
use audio_ingest::pool::Lease;
use audio_ingest::unified::UnifiedAudioDecoder;
use audio_ingest::wav::{read_wav_pcm, wav_header, WavReadError};

#[test]
fn test_format_support_info() {
    let support_info = UnifiedAudioDecoder::<u8>::get_format_support_info();
    assert_eq!(support_info.len(), 6);

    let formats: Vec<AudioFormat> = support_info.iter().map(|(f, _)| f.clone()).collect();
    assert!(formats.contains(&AudioFormat::OggOpus));
    assert!(formats.contains(&AudioFormat::WebmOpus));
    assert!(formats.contains(&AudioFormat::Wav));
}

#[test]
fn empty_report() {
    let d = AudioFormatDetector::new();
    assert_eq!(d.generate_report(), "無檢測記錄");
}

#[test]
fn report_ranks_and_rounds() {
    let mut d = AudioFormatDetector::new();
    d.detect_format(&[], None);
    d.detect_format(&[], Some("audio/wav"));
    d.detect_format(&[], Some("audio/wav"));
    assert_eq!(d.report_rows(), vec![(AudioFormat::Wav, 2), (AudioFormat::Unknown, 1)]);
    let expected = "📊 音頻格式檢測報告 (總計: 3 次)\n  Wav: 2 次 (66.7%) - ✅ 已支援 (通用)\n  Unknown: 1 次 (33.3%) - ❌ 不支援\n";
    assert_eq!(d.generate_report(), expected);
}

#[test]
fn report_ties_keep_declaration_order() {
    let rows = [(AudioFormat::OggOpus, 1u64), (AudioFormat::Mp4Aac, 1u64)];
    let text = render_report(&rows);
    assert!(text.starts_with("📊 音頻格式檢測報告 (總計: 2 次)\n  OggOpus: 1 次 (50.0%)"));
    let mut d = AudioFormatDetector::new();
    d.detect_format(&[], Some("audio/mp4"));
    d.detect_format(&[], Some("audio/ogg"));
    assert_eq!(d.report_rows(), vec![(AudioFormat::OggOpus, 1), (AudioFormat::Mp4Aac, 1)]);
}

#[test]
fn unified_decoder_state() {
    let mut u = UnifiedAudioDecoder::new(vec![10u32, 20]);
    let header = wav_header(16000, 16000);
    let mut upload = header.clone();
    upload.extend_from_slice(&vec![0u8; 32000]);
    assert_eq!(u.detect(&upload, "audio/wav"), AudioFormat::Wav);
    let c = match u.checkout_session() {
        Lease::Pooled(c) => c,
        Lease::Miss => panic!("expected a pooled session"),
    };
    let stats = u.get_decoder_stats();
    assert_eq!((stats.opus_pool_total, stats.opus_pool_available, stats.opus_pool_in_use), (2, 1, 1));
    assert_eq!(stats.format_detections, vec![(AudioFormat::Wav, 1)]);
    assert!(u.release_session(c));
    let report = u.generate_report();
    assert!(report.starts_with("📊 統一音頻解碼器報告\n\n🎵 OPUS 解碼器池狀態:\n  - 總計: 2 個解碼器\n  - 可用: 2 個\n  - 使用中: 0 個\n\n"));
    assert!(report.ends_with("  Wav: 1 次 (100.0%) - ✅ 已支援 (通用)\n"));
    u.reset_stats();
    assert!(u.get_decoder_stats().format_detections.is_empty());
}

#[test]
fn wav_header_layout() {
    let h = wav_header(16000, 16000);
    assert_eq!(h.len(), 44);
    assert_eq!(&h[0..4], b"RIFF");
    assert_eq!(u32::from_le_bytes([h[4], h[5], h[6], h[7]]), 36 + 32000);
    assert_eq!(&h[8..16], b"WAVEfmt ");
    assert_eq!(u32::from_le_bytes([h[16], h[17], h[18], h[19]]), 16);
    assert_eq!(u16::from_le_bytes([h[20], h[21]]), 1);
    assert_eq!(u16::from_le_bytes([h[22], h[23]]), 1);
    assert_eq!(u32::from_le_bytes([h[24], h[25], h[26], h[27]]), 16000);
    assert_eq!(u32::from_le_bytes([h[28], h[29], h[30], h[31]]), 32000);
    assert_eq!(u16::from_le_bytes([h[32], h[33]]), 2);
    assert_eq!(u16::from_le_bytes([h[34], h[35]]), 16);
    assert_eq!(&h[36..40], b"data");
    assert_eq!(u32::from_le_bytes([h[40], h[41], h[42], h[43]]), 32000);
}

#[test]
fn silent_wav_upload_reads_as_silence() {
    let mut upload = wav_header(16000, 16000);
    upload.extend_from_slice(&vec![0u8; 32000]);
    assert_eq!(AudioFormat::detect_from_mime("audio/wav"), AudioFormat::Wav);
    assert_eq!(AudioFormat::detect_from_data(&upload), AudioFormat::Wav);
    let pcm = read_wav_pcm(&upload).unwrap();
    assert_eq!((pcm.channels, pcm.sample_rate, pcm.bits_per_sample), (1, 16000, 16));
    assert_eq!(pcm.samples.len(), 16000);
    assert!(pcm.samples.iter().all(|&s| s == 0));
}

fn wav_bytes(bits: u16, float: bool, samples: &[i32]) -> Vec<u8> {
    let spec = hound::WavSpec {
        channels: 1,
        sample_rate: 8000,
        bits_per_sample: bits,
        sample_format: if float { hound::SampleFormat::Float } else { hound::SampleFormat::Int },
    };
    let mut cursor = std::io::Cursor::new(Vec::new());
    {
        let mut w = hound::WavWriter::new(&mut cursor, spec).unwrap();
        for &s in samples {
            if float {
                w.write_sample(s as f32 / 100.0).unwrap();
            } else {
                w.write_sample(s).unwrap();
            }
        }
        w.finalize().unwrap();
    }
    cursor.into_inner()
}

#[test]
fn wav_reading_outcomes() {
    let pcm = read_wav_pcm(&wav_bytes(16, false, &[1, -2, 300])).unwrap();
    assert_eq!(pcm.samples, vec![1, -2, 300]);
    let pcm32 = read_wav_pcm(&wav_bytes(32, false, &[70000, -5])).unwrap();
    assert_eq!((pcm32.bits_per_sample, pcm32.samples.clone()), (32, vec![70000, -5]));
    assert_eq!(read_wav_pcm(&wav_bytes(32, true, &[1])), Err(WavReadError::FloatSamples));
    assert_eq!(read_wav_pcm(&wav_bytes(24, false, &[1])), Err(WavReadError::UnsupportedBitDepth(24)));
    assert_eq!(read_wav_pcm(&wav_header(16000, 0)), Err(WavReadError::NoSamples));
    assert_eq!(read_wav_pcm(b"definitely not a wav file"), Err(WavReadError::Malformed));
}
