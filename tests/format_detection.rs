use audio_ingest::detector::AudioFormatDetector;
use audio_ingest::format::AudioFormat;

#[test]
fn test_webm_detection() {
    let webm_header = [0x1A, 0x45, 0xDF, 0xA3, 0x00, 0x00, 0x00, 0x20];
    // Eight bytes are below the sixteen-byte minimum.
    assert_eq!(AudioFormat::detect_from_data(&webm_header), AudioFormat::Unknown);
}

#[test]
fn test_ogg_detection() {
    let ogg_header = b"OggS\x00\x02\x00\x00\x00\x00\x00\x00\x00\x00";
    // Fourteen bytes are below the sixteen-byte minimum.
    assert_eq!(AudioFormat::detect_from_data(ogg_header), AudioFormat::Unknown);
}

#[test]
fn test_wav_detection() {
    let wav_header = b"RIFF\x24\x08\x00\x00WAVE";
    // Twelve bytes are below the sixteen-byte minimum.
    assert_eq!(AudioFormat::detect_from_data(wav_header), AudioFormat::Unknown);
}

#[test]
fn test_mp4_detection() {
    let mp4_header = b"\x00\x00\x00\x20ftypM4A ";
    // Twelve bytes are below the sixteen-byte minimum.
    assert_eq!(AudioFormat::detect_from_data(mp4_header), AudioFormat::Unknown);
}

#[test]
fn sixteen_byte_headers_are_detected() {
    let webm = [0x1A, 0x45, 0xDF, 0xA3, 0x00, 0x00, 0x00, 0x20, 0, 0, 0, 0, 0, 0, 0, 0];
    assert_eq!(AudioFormat::detect_from_data(&webm), AudioFormat::WebmOpus);
    assert_eq!(
        AudioFormat::detect_from_data(b"OggS\x00\x02\x00\x00\x00\x00\x00\x00\x00\x00\x00\x00"),
        AudioFormat::OggOpus
    );
    assert_eq!(AudioFormat::detect_from_data(b"RIFF\x24\x08\x00\x00WAVEfmt "), AudioFormat::Wav);
    assert_eq!(
        AudioFormat::detect_from_data(b"\x00\x00\x00\x20ftypM4A \x00\x00\x00\x00"),
        AudioFormat::Mp4Aac
    );
    // Fifteen bytes are still too few.
    assert_eq!(AudioFormat::detect_from_data(b"RIFF\x24\x08\x00\x00WAVEfmt"), AudioFormat::Unknown);
}

#[test]
fn test_mime_detection() {
    assert_eq!(AudioFormat::detect_from_mime("audio/webm;codecs=opus"), AudioFormat::WebmOpus);
    assert_eq!(AudioFormat::detect_from_mime("audio/ogg;codecs=opus"), AudioFormat::OggOpus);
    assert_eq!(AudioFormat::detect_from_mime("audio/mp4"), AudioFormat::Mp4Aac);
    assert_eq!(AudioFormat::detect_from_mime("audio/wav"), AudioFormat::Wav);
}

#[test]
fn test_unknown_format() {
    let unknown_data = b"UNKNOWN_FORMAT";
    assert_eq!(AudioFormat::detect_from_data(unknown_data), AudioFormat::Unknown);
    assert_eq!(AudioFormat::detect_from_mime("audio/unknown"), AudioFormat::Unknown);
}

#[test]
fn test_mime_type_detection() {
    let test_cases = [
        ("audio/ogg;codecs=opus", AudioFormat::OggOpus),
        ("audio/webm;codecs=opus", AudioFormat::WebmOpus),
        ("audio/wav", AudioFormat::Wav),
    ];

    for (mime, expected_format) in test_cases.iter() {
        let detected = AudioFormat::detect_from_mime(mime);
        assert_eq!(detected, *expected_format, "MIME 類型 {} 檢測失敗", mime);
    }
}

#[test]
fn mime_detection_ignores_case() {
    assert_eq!(AudioFormat::detect_from_mime("AUDIO/WAV"), AudioFormat::Wav);
    assert_eq!(AudioFormat::detect_from_mime("Audio/WebM;Codecs=Opus"), AudioFormat::WebmOpus);
    assert_eq!(AudioFormat::detect_from_lowercase_mime("AUDIO/WAV"), AudioFormat::Unknown);
}

#[test]
fn mime_table_covers_every_entry() {
    let cases = [
        ("audio/opus", AudioFormat::OggOpus),
        ("audio/webm", AudioFormat::WebmOpus),
        ("audio/webm;codecs=vorbis", AudioFormat::WebmVorbis),
        ("audio/ogg", AudioFormat::OggOpus),
        ("audio/ogg;codecs=vorbis", AudioFormat::WebmVorbis),
        ("audio/mp4;codecs=mp4a.40.2", AudioFormat::Mp4Aac),
        ("audio/m4a", AudioFormat::Mp4Aac),
        ("audio/wave", AudioFormat::Wav),
        ("audio/webm; codecs=opus", AudioFormat::Unknown),
        ("", AudioFormat::Unknown),
    ];
    for (mime, expected) in cases.iter() {
        assert_eq!(AudioFormat::detect_from_mime(mime), *expected, "{}", mime);
    }
}

#[test]
fn container_codec_markers_pick_the_codec() {
    let mut webm = vec![0x1A, 0x45, 0xDF, 0xA3];
    webm.extend_from_slice(&[0u8; 40]);
    webm.extend_from_slice(b"vorbis");
    assert_eq!(AudioFormat::detect_from_data(&webm), AudioFormat::WebmVorbis);
    webm.extend_from_slice(b"Opus");
    assert_eq!(AudioFormat::detect_from_data(&webm), AudioFormat::WebmOpus);

    let mut ogg = b"OggS".to_vec();
    ogg.extend_from_slice(&[0u8; 30]);
    ogg.extend_from_slice(b"vorbis");
    assert_eq!(AudioFormat::detect_from_data(&ogg), AudioFormat::WebmVorbis);

    // A marker beyond the first kilobyte is not seen.
    let mut late = b"OggS".to_vec();
    late.extend_from_slice(&[0u8; 1100]);
    late.extend_from_slice(b"vorbis");
    assert_eq!(AudioFormat::detect_from_data(&late), AudioFormat::OggOpus);
}

#[test]
fn mp4_needs_an_audio_brand() {
    assert_eq!(AudioFormat::detect_from_data(b"\x00\x00\x00\x20ftypmp42\x00\x00\x00\x00"), AudioFormat::Mp4Aac);
    assert_eq!(AudioFormat::detect_from_data(b"\x00\x00\x00\x20ftypisom\x00\x00\x00\x00"), AudioFormat::Unknown);
}

#[test]
fn empty_and_short_data_is_unknown() {
    assert_eq!(AudioFormat::detect_from_data(&[]), AudioFormat::Unknown);
    assert_eq!(AudioFormat::detect_from_data(b"Og"), AudioFormat::Unknown);
    assert_eq!(AudioFormat::detect_from_data(b"RIFF\x00\x00\x00\x00WAV\x00\x00\x00\x00\x00"), AudioFormat::Unknown);
}

#[test]
fn literal_detection_cases() {
    let mut d = AudioFormatDetector::new();
    let mut webm = vec![0x1A, 0x45, 0xDF, 0xA3];
    webm.extend_from_slice(&[0u8; 20]);
    assert_eq!(d.detect_format(&webm, None), AudioFormat::WebmOpus);
    let mut ogg = b"OggS".to_vec();
    ogg.extend_from_slice(&[0u8; 20]);
    assert_eq!(d.detect_format(&ogg, None), AudioFormat::OggOpus);
    assert_eq!(d.detect_format(b"RIFF\x24\x08\x00\x00WAVEfmt ", None), AudioFormat::Wav);
    assert_eq!(d.detect_format(&[], Some("audio/wav")), AudioFormat::Wav);
    assert_eq!(d.detect_format(&[], Some("audio/unknown-xyz")), AudioFormat::Unknown);
}

#[test]
fn conflicts_follow_the_merge_rules() {
    let mut d = AudioFormatDetector::new();
    let wav = b"RIFF\x24\x08\x00\x00WAVEfmt ";
    // An Opus-family MIME type wins over the bytes.
    assert_eq!(d.detect_format(wav, Some("audio/ogg")), AudioFormat::OggOpus);
    // Otherwise the lower processing priority wins: WAV (3) over MP4 (4).
    assert_eq!(d.detect_format(wav, Some("audio/mp4")), AudioFormat::Wav);
    // ... and WAV (3) over Vorbis (5).
    assert_eq!(d.detect_format(wav, Some("audio/webm;codecs=vorbis")), AudioFormat::Wav);
    // A recognised MIME type wins over unrecognised bytes.
    assert_eq!(d.detect_format(b"garbage", Some("audio/mp4")), AudioFormat::Mp4Aac);
    // An unrecognised MIME type defers to the bytes.
    assert_eq!(d.detect_format(wav, Some("text/plain")), AudioFormat::Wav);
}

#[test]
fn detection_histogram_counts_results() {
    let mut d = AudioFormatDetector::new();
    assert!(d.get_detection_stats().is_empty());
    d.detect_format(&[], Some("audio/wav"));
    d.detect_format(&[], Some("audio/wav"));
    d.detect_format(&[], None);
    assert_eq!(d.detection_count(AudioFormat::Wav), 2);
    assert_eq!(d.detection_count(AudioFormat::Unknown), 1);
    assert_eq!(
        d.get_detection_stats(),
        vec![(AudioFormat::Wav, 2), (AudioFormat::Unknown, 1)]
    );
    d.reset_stats();
    assert_eq!(d.detection_count(AudioFormat::Wav), 0);
    assert!(d.get_detection_stats().is_empty());
}

#[test]
fn format_properties() {
    assert_eq!(AudioFormat::WebmOpus.processing_priority(), 1);
    assert_eq!(AudioFormat::OggOpus.processing_priority(), 2);
    assert_eq!(AudioFormat::Wav.processing_priority(), 3);
    assert_eq!(AudioFormat::Mp4Aac.processing_priority(), 4);
    assert_eq!(AudioFormat::WebmVorbis.processing_priority(), 5);
    assert_eq!(AudioFormat::Unknown.processing_priority(), 10);
    assert!(AudioFormat::OggOpus.is_opus_format());
    assert!(!AudioFormat::Wav.requires_opus_decoder());
    assert!(AudioFormat::Mp4Aac.is_modern_browser_format());
    assert!(!AudioFormat::WebmVorbis.is_modern_browser_format());
    assert_eq!(AudioFormat::Wav.friendly_name(), "WAV (PCM)");
    assert_eq!(AudioFormat::Unknown.support_status(), "❌ 不支援");
}
