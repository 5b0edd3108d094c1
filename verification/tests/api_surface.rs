use libchiaki::discovery::DiscoveryServiceOptions;
use libchiaki::opus::OpusEncoder;
use libchiaki::session::AudioHeader;

#[test]
fn audio_header_short_buf_rejected() {
    let h = AudioHeader::new(2, 16, 48000, 960);
    assert_eq!(h.frame_bytes(), 960 * 2 * 2);
    // chiaki reads and writes a fixed 14 bytes: shorter buffers are refused.
    assert!(AudioHeader::check_buffer(13).is_err());
    assert!(AudioHeader::check_buffer([0u8; 13].len()).is_err());
    assert!(AudioHeader::check_buffer(14).is_ok());
    assert!(AudioHeader::check_buffer([0u8; 14].len()).is_ok());
}

#[test]
fn opus_frame_length_checked() {
    let enc = OpusEncoder::new();
    // No header bound: no samples expected, so every frame is refused.
    assert_eq!(enc.expected_pcm_len(), 0);
    let empty: [i16; 0] = [];
    assert!(enc.check_frame_len(empty.len()).is_err());
    assert!(enc.check_frame_len([0i16; 960].len()).is_err());
}

#[test]
fn discovery_service_options_defaults() {
    let o = DiscoveryServiceOptions::new();
    assert_eq!(o.hosts_max(), 16);
    assert_eq!(o.ping_ms(), 500);
    assert_eq!(o.host_drop_pings(), 3);
}
