use null_chat::network::p2p::{
    frame_line, peer_target, LineFrame, P2PInit, P2PInitOutcome, P2PStatus, MAX_INCOMING_BYTES,
    P2P_PORT, TOR_SOCKS_LOCAL, TOR_SOCKS_SYSTEM,
};
use null_chat::network::tor_manager::{
    host_port, push_decimal, TorCircuitState, TorError, TorManager, TOR_CONTROL_ADDR,
    TOR_SOCKS_ADDR,
};
use null_chat::network::traffic_morph::{
    frame_padded, padding_target, TrafficMorpher, PADDING_LARGE, PADDING_MEDIUM, PADDING_SMALL,
};

#[test]
fn padding_target_buckets() {
    assert_eq!(padding_target(0), PADDING_SMALL);
    assert_eq!(padding_target(1024), 1024);
    assert_eq!(padding_target(1025), 5120);
    assert_eq!(padding_target(5120), 5120);
    assert_eq!(padding_target(5121), 10240);
    assert_eq!(padding_target(10240), 10240);
}

#[test]
fn padding_target_above_largest() {
    assert_eq!(padding_target(10241), 20480);
    assert_eq!(padding_target(20480), 30720);
    assert_eq!(padding_target(25000), 30720);
}

#[test]
fn frame_padded_layout() {
    let framed = frame_padded(b"abc", &[0xAA, 0xBB]);
    assert_eq!(framed, vec![b'a', b'b', b'c', 0, 2, 0, 0xAA, 0xBB]);
}

#[test]
fn frame_padded_long_padding_length_little_endian() {
    let padding = vec![1u8; 300];
    let framed = frame_padded(b"", &padding);
    assert_eq!(framed.len(), 303);
    assert_eq!(&framed[..3], &[0u8, 44, 1][..]);
}

#[test]
fn pad_to_uniform_lengths() {
    let mut morpher = TrafficMorpher::new();
    assert_eq!(morpher.pad_to_uniform(b"hello").len(), 1024);
    assert_eq!(morpher.pad_to_uniform(&[7u8; 1021]).len(), 1024);
    assert_eq!(morpher.pad_to_uniform(&[7u8; 1022]).len(), 5120);
    assert_eq!(morpher.pad_to_uniform(&[7u8; 2000]).len(), 5120);
    assert_eq!(morpher.pad_to_uniform(&[7u8; 6000]).len(), 10240);
    assert_eq!(morpher.pad_to_uniform(&[7u8; 10237]).len(), 10240);
    assert_eq!(morpher.pad_to_uniform(&[7u8; 10238]).len(), 20480);
    assert_eq!(morpher.pad_to_uniform(&[7u8; 10241]).len(), 20480);
}

#[test]
fn pad_to_uniform_keeps_payload_and_length() {
    let mut morpher = TrafficMorpher::new();
    let padded = morpher.pad_to_uniform(b"hello");
    assert_eq!(&padded[..5], b"hello");
    assert_eq!(padded[5], 0);
    let padding_len = padded[6] as usize + 256 * padded[7] as usize;
    assert_eq!(padding_len, 1024 - 5 - 3);
}

#[test]
fn strip_padding_short_input() {
    assert_eq!(TrafficMorpher::strip_padding(&[1, 2]), None);
}

#[test]
fn strip_padding_all_zero() {
    assert_eq!(TrafficMorpher::strip_padding(&[0u8; 10]), None);
}

#[test]
fn strip_padding_reads_length_before_last_nonzero() {
    // last non-zero byte at index 6; the length is read from bytes 4 and 5.
    let data = [9u8, 9, 9, 9, 2, 0, 5, 0];
    let stripped = TrafficMorpher::strip_padding(&data).unwrap();
    assert_eq!(stripped, &[9u8, 9, 9][..]);
}

#[test]
fn strip_padding_length_beyond_data_gives_empty() {
    let data = [1u8, 0xFF, 0xFF, 7];
    assert_eq!(TrafficMorpher::strip_padding(&data), Some(&[][..]));
}

#[test]
fn strip_padding_of_zero_padded_payload() {
    // the last non-zero byte is the length's low byte, so the length is read
    // from the payload's last byte and the zero separator: 65.
    let framed = frame_padded(b"AAAA", &[0u8; 4]);
    assert_eq!(TrafficMorpher::strip_padding(&framed), Some(&[][..]));
}

#[test]
fn strip_padding_does_not_undo_padding_of_uniform_payload() {
    let framed = frame_padded(&[0x41u8; 1024], &[]);
    assert_eq!(framed.len(), 1027);
    assert_eq!(TrafficMorpher::strip_padding(&framed), Some(&[][..]));
}

#[test]
fn delay_in_range() {
    let mut morpher = TrafficMorpher::new();
    for _ in 0..200 {
        let d = morpher.delay_ms();
        assert!((50..=500).contains(&d));
    }
}

#[test]
fn dummy_packet_sizes() {
    let mut morpher = TrafficMorpher::new();
    for _ in 0..50 {
        let n = morpher.dummy_packet().len();
        assert!(n == PADDING_SMALL || n == PADDING_MEDIUM || n == PADDING_LARGE);
    }
}

#[test]
fn push_decimal_digits() {
    let mut s = String::from("port=");
    push_decimal(&mut s, 0);
    push_decimal(&mut s, 9050);
    assert_eq!(s, "port=09050");
    let mut big = String::new();
    push_decimal(&mut big, u64::MAX);
    assert_eq!(big, "18446744073709551615");
}

#[test]
fn host_port_joins() {
    assert_eq!(host_port("example.onion", 443), "example.onion:443");
    assert_eq!(host_port("", 0), ":0");
}

#[test]
fn tor_addresses() {
    assert_eq!(TOR_SOCKS_ADDR, "127.0.0.1:9050");
    assert_eq!(TOR_CONTROL_ADDR, "127.0.0.1:9051");
}

#[test]
fn tor_manager_lifecycle_ready() {
    let mut tor = TorManager::new();
    assert_eq!(*tor.circuit_state(), TorCircuitState::Uninitialized);
    assert!(!tor.is_ready());
    assert_eq!(tor.socks_addr(), "127.0.0.1:9050");
    tor.begin_init();
    assert_eq!(*tor.circuit_state(), TorCircuitState::Building);
    assert!(tor.finish_init(None).is_ok());
    assert_eq!(*tor.circuit_state(), TorCircuitState::Ready);
    assert!(tor.is_ready());
}

#[test]
fn tor_manager_lifecycle_failed() {
    let mut tor = TorManager::new();
    tor.begin_init();
    let res = tor.finish_init(Some("connection refused".to_string()));
    match res {
        Err(TorError::SocksUnreachable(m)) => assert_eq!(m, "127.0.0.1:9050:connection refused"),
        _ => panic!("expected SocksUnreachable"),
    }
    assert_eq!(
        *tor.circuit_state(),
        TorCircuitState::Failed("127.0.0.1:9050:connection refused".to_string())
    );
    assert!(!tor.is_ready());
}

#[test]
fn p2p_constants() {
    assert_eq!(P2P_PORT, 17777);
    assert_eq!(TOR_SOCKS_SYSTEM, "127.0.0.1:9050");
    assert_eq!(TOR_SOCKS_LOCAL, "127.0.0.1:9150");
    assert_eq!(MAX_INCOMING_BYTES, 1_048_576);
}

#[test]
fn p2p_status_labels() {
    assert_eq!(P2PStatus::Offline.label(), "Offline");
    assert_eq!(P2PStatus::TorConnecting.label(), "Connecting to Tor...");
    assert_eq!(P2PStatus::TorReady { onion: "x.onion".to_string() }.label(), "Tor Connected");
    assert_eq!(P2PStatus::DirectMode.label(), "Direct (no Tor)");
    assert_eq!(P2PStatus::Error("boom".to_string()).label(), "Tor Error");
}

#[test]
fn p2p_status_ready() {
    assert!(!P2PStatus::Offline.is_ready());
    assert!(!P2PStatus::TorConnecting.is_ready());
    assert!(P2PStatus::TorReady { onion: "x.onion".to_string() }.is_ready());
    assert!(P2PStatus::DirectMode.is_ready());
    assert!(!P2PStatus::Error("boom".to_string()).is_ready());
}

#[test]
fn p2p_peer_target() {
    assert_eq!(peer_target("abcdef.onion"), "abcdef.onion:17777");
}

#[test]
fn frame_line_complete() {
    assert!(matches!(frame_line(b"hello\nworld"), LineFrame::Complete(5)));
    assert!(matches!(frame_line(b"\n"), LineFrame::Complete(0)));
}

#[test]
fn frame_line_incomplete() {
    assert!(matches!(frame_line(b"no newline"), LineFrame::Incomplete));
    assert!(matches!(frame_line(b""), LineFrame::Incomplete));
    assert!(matches!(frame_line(&vec![b'a'; MAX_INCOMING_BYTES]), LineFrame::Incomplete));
}

#[test]
fn frame_line_overflow() {
    assert!(matches!(frame_line(&vec![b'a'; MAX_INCOMING_BYTES + 1]), LineFrame::Overflow));
}

#[test]
fn p2p_init_hidden_service_path() {
    let step = P2PInit::StartHiddenService
        .advance(P2PInitOutcome::HiddenServiceUp("abc.onion".to_string()));
    assert!(matches!(&step, P2PInit::ListenBehindHiddenService { onion } if onion == "abc.onion"));
    match step.advance(P2PInitOutcome::Succeeded) {
        P2PInit::Done { status, socks } => {
            assert_eq!(status, P2PStatus::TorReady { onion: "abc.onion".to_string() });
            assert_eq!(socks, Some("127.0.0.1:9150".to_string()));
        }
        _ => panic!("expected Done"),
    }
}

#[test]
fn p2p_init_system_tor_path() {
    let step = P2PInit::StartHiddenService.advance(P2PInitOutcome::Failed);
    assert!(matches!(step, P2PInit::ProbeSystemTor));
    let step = step.advance(P2PInitOutcome::Succeeded);
    assert!(matches!(step, P2PInit::ListenBehindSystemTor));
    match step.advance(P2PInitOutcome::Succeeded) {
        P2PInit::Done { status, socks } => {
            assert_eq!(
                status,
                P2PStatus::TorReady { onion: "(system Tor \u{2014} no hidden service)".to_string() }
            );
            assert_eq!(socks, Some("127.0.0.1:9050".to_string()));
        }
        _ => panic!("expected Done"),
    }
}

#[test]
fn p2p_init_listener_behind_hidden_service_fails() {
    let step = P2PInit::ListenBehindHiddenService { onion: "abc.onion".to_string() }
        .advance(P2PInitOutcome::Failed);
    assert!(matches!(step, P2PInit::ProbeSystemTor));
}

#[test]
fn p2p_init_direct_path() {
    let step = P2PInit::ProbeSystemTor.advance(P2PInitOutcome::Failed);
    assert!(matches!(step, P2PInit::ListenDirect));
    match step.advance(P2PInitOutcome::Succeeded) {
        P2PInit::Done { status, socks } => {
            assert_eq!(status, P2PStatus::DirectMode);
            assert_eq!(socks, None);
        }
        _ => panic!("expected Done"),
    }
}

#[test]
fn p2p_init_all_fail() {
    let step = P2PInit::ListenBehindSystemTor.advance(P2PInitOutcome::Failed);
    assert!(matches!(step, P2PInit::ListenDirect));
    match step.advance(P2PInitOutcome::Failed) {
        P2PInit::Done { status, socks } => {
            assert_eq!(status, P2PStatus::Error("P2P listener failed to bind".to_string()));
            assert_eq!(socks, None);
        }
        _ => panic!("expected Done"),
    }
}

#[test]
fn p2p_init_done_stays_done() {
    let done = P2PInit::Done { status: P2PStatus::DirectMode, socks: None };
    match done.advance(P2PInitOutcome::Failed) {
        P2PInit::Done { status, socks } => {
            assert_eq!(status, P2PStatus::DirectMode);
            assert_eq!(socks, None);
        }
        _ => panic!("expected Done"),
    }
}

#[test]
fn torrc_layout() {
    let text = null_chat::network::p2p::torrc_text("/data/tor", "/data/tor/hs");
    assert_eq!(
        text,
        "DataDirectory /data/tor\nHiddenServiceDir /data/tor/hs\nHiddenServicePort 17777 127.0.0.1:17777\nSocksPort 9150\nControlPort 9151\nLog notice stderr\nExitPolicy reject *:*\n"
    );
}

#[test]
fn onion_from_hostname_trims() {
    assert_eq!(
        null_chat::network::p2p::onion_from_hostname("  abcdefghijklmnop.onion\n"),
        "abcdefghijklmnop.onion"
    );
    assert_eq!(null_chat::network::p2p::onion_from_hostname(""), "");
}

#[test]
fn tor_manager_default_and_newnym() {
    let tor = TorManager::default();
    assert_eq!(*tor.circuit_state(), TorCircuitState::Uninitialized);
    assert_eq!(
        null_chat::network::tor_manager::TOR_NEWNYM_COMMAND.as_bytes(),
        b"AUTHENTICATE \"\"\r\nSIGNAL NEWNYM\r\n"
    );
}
