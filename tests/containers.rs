use audio_ingest::container::{
    detect_audio_format, extract_ogg_opus_packets, has_ogg_opus_signature, is_mp4_data, is_ogg_data,
    is_webm_data, ContainerFormat,
};
use audio_ingest::decode::{
    check_packet_list, container_for_upload, opus_packets_from_bytes, packet_size_summary,
    pcm16le_samples,
};
use audio_ingest::error::DecodeError;

fn ogg_page(segments: u8, body: &[u8]) -> Vec<u8> {
    let mut page = b"OggS".to_vec();
    page.extend_from_slice(&[0u8; 22]);
    page.push(segments);
    page.extend_from_slice(&vec![0xEEu8; segments as usize]);
    page.extend_from_slice(body);
    page
}

#[test]
fn container_sniffing() {
    let mut webm = vec![0x1A, 0x45, 0xDF, 0xA3];
    webm.extend_from_slice(&[0u8; 12]);
    assert_eq!(detect_audio_format(&webm), ContainerFormat::WebmOpus);
    assert!(is_webm_data(&webm));
    let ogg = ogg_page(0, &[1, 2, 3]);
    assert!(is_ogg_data(&ogg));
    let mp4 = b"\x00\x00\x00\x20ftypisom\x00\x00\x00\x00".to_vec();
    assert!(is_mp4_data(&mp4));
    // Fewer than sixteen bytes are never classified.
    assert_eq!(detect_audio_format(b"OggS\x00\x00"), ContainerFormat::Unknown);
}

#[test]
fn ogg_pages_yield_one_chunk_each() {
    let mut data = ogg_page(2, &[10, 11, 12]);
    data.extend_from_slice(&ogg_page(1, &[20, 21]));
    let packets = extract_ogg_opus_packets(&data);
    assert_eq!(packets.len(), 2);
    // The first chunk runs past its page into the next one: framing is approximate.
    assert_eq!(&packets[0][..3], &[10, 11, 12]);
    assert_eq!(packets[0].len(), data.len() - 29);
    assert_eq!(packets[1], vec![20, 21]);
}

#[test]
fn ogg_chunks_are_bounded() {
    let data = ogg_page(0, &vec![7u8; 5000]);
    let packets = extract_ogg_opus_packets(&data);
    assert_eq!(packets.len(), 1);
    assert_eq!(packets[0].len(), 4096);
}

#[test]
fn no_pages_no_chunks() {
    assert!(extract_ogg_opus_packets(b"no pages in here at all").is_empty());
    // A header cut short yields nothing.
    assert!(extract_ogg_opus_packets(b"OggS\x00\x00\x00").is_empty());
}

#[test]
fn opus_source_routing() {
    let ogg = ogg_page(0, &[1, 2, 3, 4]);
    assert_eq!(opus_packets_from_bytes(&ogg), Ok(vec![vec![1, 2, 3, 4]]));
    let mut webm = vec![0x1A, 0x45, 0xDF, 0xA3];
    webm.extend_from_slice(&[0u8; 20]);
    assert_eq!(opus_packets_from_bytes(&webm), Err(DecodeError::ContainerMalformed));
    let mp4 = b"\x00\x00\x00\x20ftypM4A \x00\x00\x00\x00".to_vec();
    assert_eq!(opus_packets_from_bytes(&mp4), Err(DecodeError::Mp4AacUnsupported));
    let raw = vec![0x78u8; 64];
    assert_eq!(opus_packets_from_bytes(&raw), Err(DecodeError::FormatUnrecognized));
    // OpusHead in otherwise unknown bytes counts as Ogg, but without pages it is malformed.
    let mut head = vec![0u8; 20];
    head.extend_from_slice(b"OpusHead");
    assert!(has_ogg_opus_signature(&head));
    assert_eq!(opus_packets_from_bytes(&head), Err(DecodeError::ContainerMalformed));
}

#[test]
fn packet_lists() {
    assert_eq!(check_packet_list(&[]), Err(DecodeError::NoPackets));
    assert_eq!(check_packet_list(&[vec![1, 2]]), Ok(()));
    assert!(packet_size_summary(&[]).is_none());
    let s = packet_size_summary(&[vec![0; 10], vec![0; 3], vec![0; 30]]).unwrap();
    assert_eq!((s.min, s.max, s.mean), (3, 30, 14));
}

#[test]
fn raw_pcm16_samples() {
    assert_eq!(pcm16le_samples(&[]), None);
    assert_eq!(pcm16le_samples(&[1, 2, 3]), None);
    assert_eq!(pcm16le_samples(&[0x01, 0x00, 0xFF, 0xFF, 0x00, 0x80, 0xFF, 0x7F]), Some(vec![1, -1, -32768, 32767]));
}

#[test]
fn upload_container_routing() {
    let silence = vec![0u8; 32];
    assert_eq!(container_for_upload(&silence, Some("audio/webm")), ContainerFormat::WebmOpus);
    assert_eq!(container_for_upload(&silence, Some("audio/ogg;codecs=opus")), ContainerFormat::OggOpus);
    assert_eq!(container_for_upload(&silence, Some("audio/mp4;codecs=mp4a.40.2")), ContainerFormat::Mp4Aac);
    assert_eq!(container_for_upload(&silence, Some("AUDIO/OGG")), ContainerFormat::Unknown);
    let ogg = ogg_page(0, &[0u8; 10]);
    assert_eq!(container_for_upload(&ogg, Some("audio/wav")), ContainerFormat::OggOpus);
    assert_eq!(container_for_upload(&ogg, None), ContainerFormat::OggOpus);
}
