use audio_ingest::browser::BrowserCompatibility;
use audio_ingest::format::AudioFormat;

#[test]
fn browsers_map_to_their_formats() {
    let chrome = "Mozilla/5.0 (X11; Linux x86_64) AppleWebKit/537.36 Chrome/120.0 Safari/537.36";
    assert_eq!(
        BrowserCompatibility::get_supported_formats(chrome),
        vec![AudioFormat::WebmOpus, AudioFormat::Wav]
    );
    assert_eq!(
        BrowserCompatibility::get_supported_formats("Mozilla/5.0 Gecko/20100101 FIREFOX/121.0"),
        vec![AudioFormat::OggOpus, AudioFormat::Wav]
    );
    assert_eq!(
        BrowserCompatibility::get_supported_formats("Mozilla/5.0 (Macintosh) Version/17.1 Safari/605.1.15"),
        vec![AudioFormat::Mp4Aac, AudioFormat::Wav]
    );
    assert_eq!(BrowserCompatibility::get_supported_formats("curl/8.0"), vec![AudioFormat::Wav]);
}

#[test]
fn recommended_format_has_lowest_priority() {
    assert_eq!(BrowserCompatibility::get_recommended_format("Chrome"), AudioFormat::WebmOpus);
    assert_eq!(BrowserCompatibility::get_recommended_format("Firefox"), AudioFormat::OggOpus);
    assert_eq!(BrowserCompatibility::get_recommended_format("Safari"), AudioFormat::Wav);
    assert_eq!(BrowserCompatibility::get_recommended_format(""), AudioFormat::Wav);
}

#[test]
fn format_support_check() {
    assert!(BrowserCompatibility::is_format_supported(&AudioFormat::WebmOpus, "Edge/120"));
    assert!(!BrowserCompatibility::is_format_supported(&AudioFormat::OggOpus, "Edge/120"));
    assert!(BrowserCompatibility::is_format_supported(&AudioFormat::Wav, "anything"));
}
