use libchiaki::common::{Codec, QuitReason, Target};
use libchiaki::connect::{ConnectInfo, DisableAudioVideo, VideoProfile};
use libchiaki::base64::{decode_capacity, encode_capacity};
use libchiaki::cstr::{c_array_to_string, c_str_or_empty, c_string_or_invalid_data, check_c_string, nul_position, opt_c_str};
use libchiaki::discovery::{
    broadcast_sockaddr, discovery_port, ipv4_sockaddr, parse_discovery_hosts, DiscoveryCmd,
    DiscoveryHostState, DiscoveryPacket, DiscoveryServiceOptions, RawDiscoveryHost, AF_INET,
};
use libchiaki::error::{cvt, Error, ErrorCode};
use libchiaki::feedback::{format_step, FormatStep, HistoryEvent, FORMAT_INITIAL_SIZE, FORMAT_MAX_SIZE};
use libchiaki::holepunch::{
    device_uid_text, parse_device_list, present_or_unknown, stun_allocation_result, HolepunchConsoleType,
    RawHolepunchDevice,
};
use libchiaki::opus::OpusEncoder;
use libchiaki::regist::{parse_regist_event, RegistEvent, RegistEventType, RegistInfo};
use libchiaki::session::{parse_event, parse_registered_host, AudioHeader, Event, JoinState, RawEvent, RawRegisteredHost};

fn profile_720p() -> VideoProfile {
    VideoProfile { width: 1280, height: 720, max_fps: 30, bitrate: 10000, codec: Codec::H264 }
}

fn raw_host() -> RawRegisteredHost {
    let mut nickname = vec![0u8; 32];
    nickname[..5].copy_from_slice(b"PS5-1");
    let mut ssid = vec![0u8; 48];
    ssid[..3].copy_from_slice(b"net");
    let mut key = [0i8; 16];
    key[0] = -1;
    key[1] = 65;
    RawRegisteredHost {
        target: Target::Ps5V1,
        ap_ssid: ssid,
        ap_bssid: vec![0u8; 32],
        ap_key: b"secret".to_vec(),
        ap_name: vec![0u8; 32],
        server_mac: [1, 2, 3, 4, 5, 6],
        server_nickname: nickname,
        rp_regist_key: key,
        rp_key_type: 7,
        rp_key: [9u8; 16],
        console_pin: 1234,
    }
}

#[test]
fn cvt_maps_success_only_to_ok() {
    assert!(cvt(ErrorCode::Success).is_ok());
    assert_eq!(cvt(ErrorCode::Timeout), Err(Error(ErrorCode::Timeout)));
    assert_eq!(cvt(ErrorCode::BufTooSmall).unwrap_err().code(), ErrorCode::BufTooSmall);
}

#[test]
fn nul_position_finds_first_nul() {
    assert_eq!(nul_position(b"ab\0cd\0"), 2);
    assert_eq!(nul_position(b"abc"), 3);
    assert_eq!(nul_position(b""), 0);
    assert_eq!(nul_position(b"\0"), 0);
}

#[test]
fn char_array_text_stops_at_nul() {
    assert_eq!(c_array_to_string(b"host\0garbage"), "host");
    assert_eq!(c_array_to_string(b"no terminator"), "no terminator");
    assert_eq!(c_array_to_string(b"\0\0\0"), "");
    assert_eq!(c_array_to_string(b"bad\xffbyte\0x"), "bad\u{fffd}byte");
}

#[test]
fn lossy_decoding_replaces_invalid_bytes() {
    assert_eq!(c_str_or_empty(Some(b"caf\xc3\xa9")), "caf\u{e9}");
    assert_eq!(c_str_or_empty(Some(b"\xff")), "\u{fffd}");
    assert_eq!(opt_c_str(Some(b"a\xc3")), Some("a\u{fffd}".to_string()));
}

#[test]
fn invalid_data_for_nul_in_c_string() {
    assert!(c_string_or_invalid_data("token").is_ok());
    assert_eq!(c_string_or_invalid_data("to\0ken"), Err(Error(ErrorCode::InvalidData)));
}

#[test]
fn base64_buffer_sizes() {
    assert_eq!(encode_capacity(12), 21);
    assert_eq!(encode_capacity(0), 5);
    // "hello chiaki" (12 bytes) encodes to 16 characters plus a NUL.
    assert!(encode_capacity("hello chiaki".len()) >= "aGVsbG8gY2hpYWtp".len() + 1);
    assert_eq!(decode_capacity(16), 15);
    assert_eq!(decode_capacity(3), 3);
}

#[test]
fn optional_c_strings() {
    assert_eq!(c_str_or_empty(None), "");
    assert_eq!(c_str_or_empty(Some(b"text")), "text");
    assert_eq!(opt_c_str(None), None);
    assert_eq!(opt_c_str(Some(b"v")), Some("v".to_string()));
}

#[test]
fn c_string_check_reports_first_nul() {
    assert!(check_c_string("192.168.1.2").is_ok());
    assert_eq!(check_c_string("a\0b\0").unwrap_err().nul_position, 1);
    assert_eq!(check_c_string("\u{e9}\0").unwrap_err().nul_position, 2);
}

#[test]
fn sockaddr_layout() {
    let a = ipv4_sockaddr([192, 168, 1, 2], 9302);
    assert_eq!(a.family, AF_INET);
    assert_eq!(a.family, 2);
    assert_eq!(a.port_be, [0x24, 0x56]);
    assert_eq!(a.addr, [192, 168, 1, 2]);
    assert_eq!(a.zero, [0u8; 8]);
    assert_eq!(u16::from_be_bytes(ipv4_sockaddr([0; 4], 987).port_be), 987);
}

#[test]
fn broadcast_goes_to_console_port() {
    assert_eq!(discovery_port(false), 987);
    assert_eq!(discovery_port(true), 9302);
    let b = broadcast_sockaddr(true);
    assert_eq!(b.addr, [255, 255, 255, 255]);
    assert_eq!(b.port_be, 9302u16.to_be_bytes());
    assert_eq!(broadcast_sockaddr(false).port_be, 987u16.to_be_bytes());
}

#[test]
fn discovery_packets() {
    let s4 = DiscoveryPacket::new_search(false);
    assert_eq!(s4.cmd(), DiscoveryCmd::Srch);
    assert_eq!(s4.protocol_version(), b"00020020");
    assert_eq!(s4.user_credential(), 0);
    let s5 = DiscoveryPacket::new_search(true);
    assert_eq!(s5.protocol_version(), b"00030010");
    let w = DiscoveryPacket::new_wakeup(0x1234_5678, true);
    assert_eq!(w.cmd(), DiscoveryCmd::Wakeup);
    assert_eq!(w.user_credential(), 0x1234_5678);
    assert_eq!(w.protocol_version(), b"00030010");
}

#[test]
fn discovery_packet_text() {
    let buf = *b"SRCH * HTTP/1.1\n\0\0\0";
    assert_eq!(DiscoveryPacket::text_from_fmt(16, &buf).unwrap(), "SRCH * HTTP/1.1\n");
    assert_eq!(DiscoveryPacket::text_from_fmt(100, b"abc").unwrap(), "abc");
    assert_eq!(DiscoveryPacket::text_from_fmt(0, b"abc").unwrap(), "");
    assert_eq!(DiscoveryPacket::text_from_fmt(-1, &buf), Err(Error(ErrorCode::InvalidData)));
}

#[test]
fn discovery_hosts_are_read_in_order() {
    let raw = vec![
        RawDiscoveryHost {
            state: DiscoveryHostState::Ready,
            host_request_port: 997,
            host_addr: Some(b"192.168.1.2".to_vec()),
            system_version: Some(b"07020001".to_vec()),
            device_discovery_protocol_version: None,
            host_name: Some(b"PS4-Living".to_vec()),
            host_type: Some(b"PS4".to_vec()),
            host_id: None,
            running_app_titleid: None,
            running_app_name: None,
            is_ps5: false,
            target: Target::Ps4V10,
        },
        RawDiscoveryHost {
            state: DiscoveryHostState::Standby,
            host_request_port: 9295,
            host_addr: None,
            system_version: None,
            device_discovery_protocol_version: Some(b"00030010".to_vec()),
            host_name: None,
            host_type: Some(b"PS5".to_vec()),
            host_id: Some(b"ABCDEF".to_vec()),
            running_app_titleid: Some(b"CUSA00001".to_vec()),
            running_app_name: Some(b"Game".to_vec()),
            is_ps5: true,
            target: Target::Ps5V1,
        },
    ];
    let hosts = parse_discovery_hosts(&raw);
    assert_eq!(hosts.len(), 2);
    assert_eq!(hosts[0].state, DiscoveryHostState::Ready);
    assert_eq!(hosts[0].host_addr.as_deref(), Some("192.168.1.2"));
    assert_eq!(hosts[0].host_id, None);
    assert_eq!(hosts[0].target, Target::Ps4V10);
    assert!(!hosts[0].is_ps5);
    assert_eq!(hosts[1].host_request_port, 9295);
    assert_eq!(hosts[1].host_addr, None);
    assert_eq!(hosts[1].running_app_name.as_deref(), Some("Game"));
    assert!(hosts[1].is_ps5);
    assert!(parse_discovery_hosts(&[]).is_empty());
}

#[test]
fn service_options_setters() {
    let mut o = DiscoveryServiceOptions::default();
    assert_eq!(o.ping_initial_ms(), 0);
    assert_eq!(o.send_host(), &None);
    o.set_hosts_max(4);
    o.set_ping_ms(1000);
    o.set_ping_initial_ms(10);
    o.set_host_drop_pings(9);
    assert_eq!((o.hosts_max(), o.ping_ms(), o.ping_initial_ms(), o.host_drop_pings()), (4, 1000, 10, 9));
    assert!(o.set_send_host("192.168.1.255").is_ok());
    assert_eq!(o.send_host().as_deref(), Some("192.168.1.255"));
    assert_eq!(o.set_send_host("bad\0host").unwrap_err().nul_position, 3);
    assert_eq!(o.send_host().as_deref(), Some("192.168.1.255"));
}

#[test]
fn connect_info_builds() {
    let key = [0xabu8; 16];
    let mut info = ConnectInfo::new("192.168.1.2", &key, true, profile_720p()).unwrap();
    assert_eq!(info.host(), "192.168.1.2");
    assert_eq!(info.regist_key(), key);
    assert!(info.ps5());
    assert_eq!(info.bitrate(), 10000);
    assert!(!info.auto_regist());
    assert_eq!(info.psn_account_id(), [0u8; 8]);
    info.set_video_profile(VideoProfile { width: 1920, height: 1080, max_fps: 60, bitrate: 15000, codec: Codec::H264 });
    info.set_auto_regist(true);
    assert!(info.auto_regist());
    assert!(ConnectInfo::new("a\0b", &key, false, profile_720p()).is_err());
}

#[test]
fn bitrate_overrides_preset() {
    let mut info = ConnectInfo::new("host", &[0u8; 16], false, profile_720p()).unwrap();
    info.set_bitrate(25000);
    assert_eq!(info.bitrate(), 25000);
    assert_eq!(info.video_profile().width, 1280);
    info.set_video_codec(Codec::H265Hdr);
    assert_eq!(info.video_profile(), VideoProfile { bitrate: 25000, codec: Codec::H265Hdr, ..profile_720p() });
    info.set_video_custom(800, 600, 45, 3000, Codec::H265);
    assert_eq!(info.video_profile(), VideoProfile { width: 800, height: 600, max_fps: 45, bitrate: 3000, codec: Codec::H265 });
    info.set_psn_account_id(&[7u8; 8]);
    info.set_morning(&[5u8; 16]);
    info.set_auto_downgrade(true);
    info.set_enable_keyboard(true);
    info.set_enable_dualsense(true);
    info.set_enable_idr_on_fec_failure(true);
    info.set_audio_video_disabled(DisableAudioVideo(1));
    assert_eq!(info.psn_account_id(), [7u8; 8]);
    assert_eq!(info.morning(), [5u8; 16]);
    assert!(info.auto_downgrade() && info.enable_keyboard() && info.enable_dualsense());
    assert!(info.enable_idr_on_fec_failure());
    assert_eq!(info.audio_video_disabled(), DisableAudioVideo(1));
}

#[test]
fn regist_info_online_id() {
    let mut info = RegistInfo::new(Target::Ps5V1, "192.168.1.9", 12345678).unwrap();
    assert_eq!(info.pin(), 12345678);
    assert_eq!(info.host(), "192.168.1.9");
    assert_eq!(info.target(), Target::Ps5V1);
    assert_eq!(info.psn_online_id(), &None);
    assert!(info.set_psn_online_id("player").is_ok());
    assert_eq!(info.psn_online_id().as_deref(), Some("player"));
    // The empty id means "not set": chiaki then uses the account id.
    assert!(info.set_psn_online_id("").is_ok());
    assert_eq!(info.psn_online_id(), &None);
    assert!(info.set_psn_online_id("pl\0ayer").is_err());
    assert_eq!(info.psn_online_id(), &None);
    info.set_broadcast(true);
    info.set_psn_account_id(&[3u8; 8]);
    info.set_console_pin(4321);
    assert!(info.broadcast());
    assert_eq!(info.psn_account_id(), [3u8; 8]);
    assert_eq!(info.console_pin(), 4321);
    assert!(RegistInfo::new(Target::Ps4V10, "h\0", 0).is_err());
}

#[test]
fn registered_host_is_read() {
    let h = parse_registered_host(&raw_host());
    assert_eq!(h.target, Target::Ps5V1);
    assert_eq!(h.server_nickname, "PS5-1");
    assert_eq!(h.ap_ssid, "net");
    assert_eq!(h.ap_key, "secret");
    assert_eq!(h.ap_bssid, "");
    assert_eq!(h.rp_regist_key[0], 0xff);
    assert_eq!(h.rp_regist_key[1], 65);
    assert_eq!(h.rp_key, [9u8; 16]);
    assert_eq!(h.server_mac, [1, 2, 3, 4, 5, 6]);
    assert_eq!((h.rp_key_type, h.console_pin), (7, 1234));
}

#[test]
fn regist_events() {
    let host = raw_host();
    assert!(matches!(parse_regist_event(RegistEventType::FinishedCanceled, None), RegistEvent::FinishedCanceled));
    assert!(matches!(parse_regist_event(RegistEventType::FinishedFailed, Some(&host)), RegistEvent::FinishedFailed));
    // A success that carries no host data counts as a failure.
    assert!(matches!(parse_regist_event(RegistEventType::FinishedSuccess, None), RegistEvent::FinishedFailed));
    match parse_regist_event(RegistEventType::FinishedSuccess, Some(&host)) {
        RegistEvent::FinishedSuccess(h) => assert_eq!(h.server_nickname, "PS5-1"),
        other => panic!("unexpected {other:?}"),
    }
}

#[test]
fn session_events() {
    assert!(matches!(parse_event(&RawEvent::Connected), Event::Connected));
    match parse_event(&RawEvent::Quit { reason: QuitReason(2), reason_str: Some(b"Server shutting down".to_vec()) }) {
        Event::Quit { reason, reason_str } => {
            assert_eq!(reason, QuitReason(2));
            assert_eq!(reason_str, "Server shutting down");
        }
        other => panic!("unexpected {other:?}"),
    }
    match parse_event(&RawEvent::Quit { reason: QuitReason(0), reason_str: None }) {
        Event::Quit { reason_str, .. } => assert_eq!(reason_str, ""),
        other => panic!("unexpected {other:?}"),
    }
    match parse_event(&RawEvent::NicknameReceived(b"Living room\0\0\0".to_vec())) {
        Event::NicknameReceived(n) => assert_eq!(n, "Living room"),
        other => panic!("unexpected {other:?}"),
    }
    match parse_event(&RawEvent::KeyboardTextChange(Some(b"hello".to_vec()))) {
        Event::KeyboardTextChange(t) => assert_eq!(t, "hello"),
        other => panic!("unexpected {other:?}"),
    }
    match parse_event(&RawEvent::Rumble { unknown: 1, left: 2, right: 3 }) {
        Event::Rumble { unknown, left, right } => assert_eq!((unknown, left, right), (1, 2, 3)),
        other => panic!("unexpected {other:?}"),
    }
    match parse_event(&RawEvent::VideoFecFailure { frame_index: 42, idr_request_sent: true }) {
        Event::VideoFecFailure { frame_index, idr_request_sent } => {
            assert_eq!(frame_index, 42);
            assert!(idr_request_sent);
        }
        other => panic!("unexpected {other:?}"),
    }
    match parse_event(&RawEvent::Regist(raw_host())) {
        Event::Regist(h) => assert_eq!(h.console_pin, 1234),
        other => panic!("unexpected {other:?}"),
    }
    match parse_event(&RawEvent::LedColor([10, 20, 30])) {
        Event::LedColor(c) => assert_eq!(c, [10, 20, 30]),
        other => panic!("unexpected {other:?}"),
    }
}

#[test]
fn holepunch_results() {
    let mut name = vec![0u8; 32];
    name[..7].copy_from_slice(b"My PS5!");
    let devices = parse_device_list(&[RawHolepunchDevice {
        console_type: HolepunchConsoleType::Ps5,
        device_name: name,
        device_uid: [4u8; 32],
        remoteplay_enabled: true,
    }]);
    assert_eq!(devices.len(), 1);
    assert_eq!(devices[0].device_name, "My PS5!");
    assert_eq!(devices[0].console_type, HolepunchConsoleType::Ps5);
    assert_eq!(devices[0].device_uid, [4u8; 32]);
    assert!(devices[0].remoteplay_enabled);
    let mut buf = [b'A'; 49];
    buf[48] = 0;
    assert_eq!(device_uid_text(&buf, 49).len(), 48);
    assert_eq!(device_uid_text(&buf, 4), "AAAA");
    assert_eq!(device_uid_text(&buf, 100).len(), 48);
    assert_eq!(present_or_unknown::<i32>(None), Err(Error(ErrorCode::Unknown)));
    assert_eq!(present_or_unknown(Some(5)), Ok(5));
    assert_eq!(stun_allocation_result(true, -2, true), Some((-2, true)));
    assert_eq!(stun_allocation_result(false, 3, false), None);
}

#[test]
fn history_format_buffer_growth() {
    let mut size = FORMAT_INITIAL_SIZE;
    let mut tries = 1;
    loop {
        match format_step(ErrorCode::BufTooSmall, size, 0) {
            FormatStep::Retry { size: next } => {
                assert_eq!(next, size * 2);
                size = next;
                tries += 1;
            }
            FormatStep::Fail(e) => {
                assert_eq!(e, Error(ErrorCode::BufTooSmall));
                break;
            }
            FormatStep::Done { .. } => panic!("never done on a too small buffer"),
        }
    }
    assert_eq!(size, FORMAT_MAX_SIZE);
    assert_eq!(tries, 13);
    assert_eq!(format_step(ErrorCode::Success, 256, 40), FormatStep::Done { len: 40 });
    assert_eq!(format_step(ErrorCode::Success, 256, 4000), FormatStep::Done { len: 256 });
    assert_eq!(format_step(ErrorCode::Memory, 512, 0), FormatStep::Fail(Error(ErrorCode::Memory)));
}

#[test]
fn history_event_starts_empty() {
    let e = HistoryEvent::new();
    assert_eq!(e.buf, [0u8; 5]);
    assert_eq!(e.len, 0);
    assert_eq!(HistoryEvent::default().len, 0);
}

#[test]
fn join_state_tracks_successful_join() {
    let mut s = JoinState::new();
    assert!(s.needs_join_on_drop());
    s.record_join(Err(Error(ErrorCode::Thread)));
    assert!(s.needs_join_on_drop());
    s.record_join(Ok(()));
    assert!(!s.needs_join_on_drop());
    s.record_join(Err(Error(ErrorCode::Thread)));
    assert!(!s.needs_join_on_drop());
}

#[test]
fn encoder_frame_check_after_binding() {
    let mut enc = OpusEncoder::new();
    enc.bind_header(AudioHeader::new(2, 16, 48000, 480));
    assert_eq!(enc.expected_pcm_len(), 960);
    assert_eq!(enc.audio_header(), AudioHeader { channels: 2, bits: 16, rate: 48000, frame_size: 480 });
    assert!(enc.check_frame_len(960).is_ok());
    assert_eq!(enc.check_frame_len(959), Err(Error(ErrorCode::InvalidData)));
    assert_eq!(AudioHeader::zeroed().frame_bytes(), 0);
}
