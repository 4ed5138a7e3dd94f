use ntpserver::addr::NTP_PORT;
use ntpserver::packet::{
    MODE_CLIENT, MODE_SERVER, MODE_SYMMETRIC_ACTIVE, MODE_SYMMETRIC_PASSIVE, PACKET_LEN,
};
use ntpserver::{ErrorKind, NtpFracValue, NtpPacket, NtpServerState, NtpTimestamp, PeerAddr};

fn client() -> PeerAddr {
    PeerAddr::V4 { ip: 0xc0a8_0102, port: 40_000 }
}

fn header(leap: u8, version: u8, mode: u8) -> u8 {
    leap << 6 | version << 3 | mode
}

fn sample_bytes() -> [u8; 48] {
    [
        0xe3, 0x02, 0x06, 0xec, // leap 3, version 4, mode 3; stratum 2; poll 6; precision -20
        0x00, 0x01, 0x80, 0x00, // delay
        0x00, 0x00, 0x40, 0x00, // dispersion
        0x47, 0x50, 0x53, 0x00, // reference id
        0xe8, 0xfe, 0x6f, 0x80, 0x00, 0x00, 0x00, 0x01, // reference
        0x01, 0x02, 0x03, 0x04, 0x05, 0x06, 0x07, 0x08, // originate
        0x11, 0x12, 0x13, 0x14, 0x15, 0x16, 0x17, 0x18, // receive
        0xf1, 0xf2, 0xf3, 0xf4, 0xf5, 0xf6, 0xf7, 0xf8, // transmit
    ]
}

fn sample_packet() -> NtpPacket {
    NtpPacket {
        remote_addr: client(),
        local_ts: NtpTimestamp { ts: 99 },
        leap: 3,
        version: 4,
        mode: 3,
        stratum: 2,
        poll: 6,
        precision: -20,
        delay: NtpFracValue { val: 0x0001_8000 },
        dispersion: NtpFracValue { val: 0x0000_4000 },
        ref_id: 0x4750_5300,
        ref_ts: NtpTimestamp { ts: 0xe8fe_6f80_0000_0001 },
        orig_ts: NtpTimestamp { ts: 0x0102_0304_0506_0708 },
        rx_ts: NtpTimestamp { ts: 0x1112_1314_1516_1718 },
        tx_ts: NtpTimestamp { ts: 0xf1f2_f3f4_f5f6_f7f8 },
    }
}

fn reference() -> NtpServerState {
    NtpServerState {
        leap: 1,
        stratum: 2,
        precision: -18,
        ref_id: 0x4750_5300,
        ref_ts: NtpTimestamp { ts: 0xe8fe_6f80_0000_0000 },
        dispersion: NtpFracValue { val: 0x0000_0123 },
        delay: NtpFracValue { val: 0x0000_0456 },
    }
}

fn request(mode: u8, version: u8, from: PeerAddr) -> NtpPacket {
    let mut bytes: [u8; 48] = [0; 48];
    bytes[0] = header(0, version, mode);
    bytes[47] = 0x2a;
    NtpPacket::parse_at(&bytes, from, NtpTimestamp { ts: 1000 }).unwrap()
}

#[test]
fn header_is_48_bytes() {
    assert_eq!(PACKET_LEN, 48usize);
    assert_eq!(NTP_PORT, 123u16);
    assert_eq!(
        (MODE_SYMMETRIC_ACTIVE, MODE_SYMMETRIC_PASSIVE, MODE_CLIENT, MODE_SERVER),
        (1u8, 2u8, 3u8, 4u8)
    );
}

#[test]
fn short_datagrams_are_truncated() {
    let bytes: [u8; 48] = sample_bytes();
    let at: NtpTimestamp = NtpTimestamp::zero();
    assert_eq!(NtpPacket::parse_at(&[], client(), at), Err(ErrorKind::Truncated));
    assert_eq!(NtpPacket::parse_at(&bytes[..1], client(), at), Err(ErrorKind::Truncated));
    assert_eq!(NtpPacket::parse_at(&bytes[..47], client(), at), Err(ErrorKind::Truncated));
    assert_eq!(NtpPacket::parse(&bytes[..47], client()), Err(ErrorKind::Truncated));
    assert_eq!(NtpPacket::parse(&[], client()), Err(ErrorKind::Truncated));
}

#[test]
fn versions_outside_one_to_four_are_unsupported() {
    let at: NtpTimestamp = NtpTimestamp::zero();
    for version in [0u8, 5, 6, 7] {
        let mut bytes: [u8; 48] = sample_bytes();
        bytes[0] = header(0, version, 3);
        assert_eq!(NtpPacket::parse_at(&bytes, client(), at), Err(ErrorKind::UnsupportedVersion));
        assert_eq!(NtpPacket::parse(&bytes, client()), Err(ErrorKind::UnsupportedVersion));
    }
}

#[test]
fn versions_one_to_four_are_accepted() {
    for version in [1u8, 2, 3, 4] {
        let mut bytes: [u8; 48] = sample_bytes();
        bytes[0] = header(2, version, 5);
        let packet: NtpPacket =
            NtpPacket::parse_at(&bytes, client(), NtpTimestamp::zero()).unwrap();
        assert_eq!((packet.leap, packet.version, packet.mode), (2u8, version, 5u8));
    }
}

#[test]
fn length_is_checked_before_version() {
    let mut bytes: [u8; 48] = sample_bytes();
    bytes[0] = header(0, 7, 3);
    assert_eq!(
        NtpPacket::parse_at(&bytes[..20], client(), NtpTimestamp::zero()),
        Err(ErrorKind::Truncated)
    );
}

#[test]
fn parse_reads_every_field() {
    let packet: NtpPacket =
        NtpPacket::parse_at(&sample_bytes(), client(), NtpTimestamp { ts: 99 }).unwrap();
    assert_eq!(packet, sample_packet());
    assert_eq!(packet.precision, -20i8);
    assert_eq!(packet.ref_id, 0x4750_5300u32);
    assert_eq!(packet.tx_ts.ts, 0xf1f2_f3f4_f5f6_f7f8u64);
}

#[test]
fn parse_ignores_what_follows_the_header() {
    let mut long: Vec<u8> = sample_bytes().to_vec();
    long.extend_from_slice(&[0xaa; 20]);
    let packet: NtpPacket = NtpPacket::parse_at(&long, client(), NtpTimestamp { ts: 99 }).unwrap();
    assert_eq!(packet, sample_packet());
}

#[test]
fn parse_stamps_the_packet_with_the_clock() {
    let before: NtpTimestamp = NtpTimestamp::now();
    let packet: NtpPacket = NtpPacket::parse(&sample_bytes(), client()).unwrap();
    let after: NtpTimestamp = NtpTimestamp::now();
    assert!(packet.local_ts.diff(&before) >= -(1i64 << 32));
    assert!(after.diff(&packet.local_ts) >= -(1i64 << 32));
    assert!(after.diff(&before) < 60i64 << 32);
    let expected: NtpPacket = NtpPacket { local_ts: packet.local_ts, ..sample_packet() };
    assert_eq!(packet, expected);
    assert_eq!(packet.remote_addr, client());
}

#[test]
fn serialize_writes_every_field() {
    assert_eq!(sample_packet().serialize(), sample_bytes());
}

#[test]
fn serialize_packs_the_first_byte() {
    let mut packet: NtpPacket = sample_packet();
    packet.leap = 1;
    packet.version = 3;
    packet.mode = 4;
    assert_eq!(packet.serialize()[0], 0x5cu8);
    packet.leap = 0;
    packet.version = 4;
    packet.mode = 3;
    assert_eq!(packet.serialize()[0], 0x23u8);
}

#[test]
fn serialize_ors_fields_that_do_not_fit() {
    let mut packet: NtpPacket = sample_packet();
    packet.leap = 5;
    packet.version = 9;
    packet.mode = 0x10;
    assert_eq!(packet.serialize()[0], 0x58u8);
}

#[test]
fn serialize_writes_negative_bytes_in_twos_complement() {
    let mut packet: NtpPacket = sample_packet();
    packet.poll = -1;
    packet.precision = -128;
    let bytes: [u8; 48] = packet.serialize();
    assert_eq!((bytes[2], bytes[3]), (0xffu8, 0x80u8));
    packet.poll = 127;
    packet.precision = 0;
    let bytes: [u8; 48] = packet.serialize();
    assert_eq!((bytes[2], bytes[3]), (0x7fu8, 0u8));
}

#[test]
fn packet_round_trip() {
    for leap in [0u8, 1, 2, 3] {
        for version in [1u8, 2, 3, 4] {
            for mode in [0u8, 1, 2, 3, 4, 5, 6, 7] {
                let packet: NtpPacket = NtpPacket {
                    leap,
                    version,
                    mode,
                    poll: (mode as i8) - 4,
                    ..sample_packet()
                };
                let bytes: [u8; 48] = packet.serialize();
                assert_eq!(
                    NtpPacket::parse_at(&bytes, packet.remote_addr, packet.local_ts),
                    Ok(packet)
                );
            }
        }
    }
}

#[test]
fn bytes_round_trip() {
    let mut bytes: [u8; 48] = [0; 48];
    for (i, b) in bytes.iter_mut().enumerate() {
        *b = (i as u8).wrapping_mul(37).wrapping_add(11);
    }
    for first in [0x08u8, 0x13, 0x1b, 0x23, 0x63, 0xa4, 0xe7] {
        bytes[0] = first;
        let packet: NtpPacket =
            NtpPacket::parse_at(&bytes, client(), NtpTimestamp::zero()).unwrap();
        assert_eq!(packet.serialize(), bytes);
    }
}

#[test]
fn client_mode_is_a_request() {
    assert!(request(3, 4, client()).is_request());
    assert!(request(3, 1, PeerAddr::V4 { ip: 1, port: 123 }).is_request());
}

#[test]
fn symmetric_active_mode_is_a_request() {
    assert!(request(1, 3, client()).is_request());
}

#[test]
fn other_modes_are_no_requests() {
    for mode in [2u8, 4, 5, 6, 7] {
        for version in [1u8, 2, 3, 4] {
            assert!(!request(mode, version, client()).is_request());
        }
    }
}

#[test]
fn version_one_without_mode_is_a_request_off_the_ntp_port() {
    assert!(request(0, 1, PeerAddr::V4 { ip: 1, port: 1024 }).is_request());
    assert!(request(0, 1, PeerAddr::V4 { ip: 1, port: 122 }).is_request());
    assert!(request(0, 1, PeerAddr::V4 { ip: 1, port: 124 }).is_request());
    assert!(request(0, 1, PeerAddr::V4 { ip: 1, port: 0 }).is_request());
    let v6: PeerAddr = PeerAddr::V6 { ip: 1, port: 5000, flowinfo: 0, scope_id: 0 };
    assert!(request(0, 1, v6).is_request());
}

#[test]
fn version_one_without_mode_is_no_request_on_the_ntp_port() {
    assert!(!request(0, 1, PeerAddr::V4 { ip: 1, port: 123 }).is_request());
    let v6: PeerAddr = PeerAddr::V6 { ip: 1, port: 123, flowinfo: 7, scope_id: 9 };
    assert!(!request(0, 1, v6).is_request());
}

#[test]
fn later_versions_need_a_mode() {
    for version in [2u8, 3, 4] {
        assert!(!request(0, version, client()).is_request());
    }
}

#[test]
fn port_of_either_family() {
    assert_eq!(PeerAddr::V4 { ip: 0, port: 123 }.port(), 123u16);
    assert_eq!(PeerAddr::V6 { ip: 0, port: 65_535, flowinfo: 1, scope_id: 2 }.port(), 65_535u16);
}

#[test]
fn response_echoes_the_request() {
    let packet: NtpPacket = sample_packet();
    let state: NtpServerState = reference();
    let tx: NtpTimestamp = NtpTimestamp { ts: 0x7777 };
    let response: NtpPacket = packet.make_response_at(&state, tx).unwrap();
    let expected: NtpPacket = NtpPacket {
        remote_addr: client(),
        local_ts: NtpTimestamp { ts: 0 },
        leap: 1,
        version: 4,
        mode: 4,
        stratum: 2,
        poll: 6,
        precision: -18,
        delay: NtpFracValue { val: 0x0000_0456 },
        dispersion: NtpFracValue { val: 0x0000_0123 },
        ref_id: 0x4750_5300,
        ref_ts: NtpTimestamp { ts: 0xe8fe_6f80_0000_0000 },
        orig_ts: NtpTimestamp { ts: 0xf1f2_f3f4_f5f6_f7f8 },
        rx_ts: NtpTimestamp { ts: 99 },
        tx_ts: NtpTimestamp { ts: 0x7777 },
    };
    assert_eq!(response, expected);
    assert_eq!(response.get_server_state(), state);
    assert!(response.is_valid_response(&packet));
}

#[test]
fn response_mode_follows_request_mode() {
    let state: NtpServerState = reference();
    let tx: NtpTimestamp = NtpTimestamp { ts: 1 };
    let to_client: NtpPacket = request(3, 4, client()).make_response_at(&state, tx).unwrap();
    assert_eq!(to_client.mode, 4u8);
    let to_peer: NtpPacket = request(1, 4, client()).make_response_at(&state, tx).unwrap();
    assert_eq!(to_peer.mode, 2u8);
    let to_old: NtpPacket = request(0, 1, client()).make_response_at(&state, tx).unwrap();
    assert_eq!(to_old.mode, 2u8);
    assert_eq!(to_old.version, 1u8);
}

#[test]
fn only_requests_are_answered() {
    let state: NtpServerState = reference();
    let tx: NtpTimestamp = NtpTimestamp { ts: 1 };
    for mode in [2u8, 4, 5, 6, 7] {
        assert_eq!(request(mode, 4, client()).make_response_at(&state, tx), None);
        assert_eq!(request(mode, 4, client()).make_response(&state), None);
    }
    assert_eq!(request(0, 2, client()).make_response_at(&state, tx), None);
    let ntp_port: PeerAddr = PeerAddr::V4 { ip: 1, port: 123 };
    assert_eq!(request(0, 1, ntp_port).make_response(&state), None);
}

#[test]
fn response_is_stamped_with_the_clock() {
    let packet: NtpPacket = sample_packet();
    let state: NtpServerState = reference();
    let before: NtpTimestamp = NtpTimestamp::now();
    let response: NtpPacket = packet.make_response(&state).unwrap();
    let after: NtpTimestamp = NtpTimestamp::now();
    assert!(response.tx_ts.diff(&before) >= -(1i64 << 32));
    assert!(after.diff(&response.tx_ts) >= -(1i64 << 32));
    assert_eq!(Some(response), packet.make_response_at(&state, response.tx_ts));
    assert_eq!(response.orig_ts, packet.tx_ts);
    assert_eq!(response.get_server_state(), state);
    assert!(response.is_valid_response(&packet));
}

#[test]
fn responses_are_no_requests() {
    let state: NtpServerState = reference();
    let tx: NtpTimestamp = NtpTimestamp { ts: 1 };
    for mode in [0u8, 1, 3] {
        let response: NtpPacket = request(mode, 1, client()).make_response_at(&state, tx).unwrap();
        assert!(!response.is_request());
    }
}

#[test]
fn new_request_with_fills_a_client_request() {
    let server: PeerAddr = PeerAddr::V4 { ip: 0x0a00_0001, port: 123 };
    let made: NtpPacket =
        NtpPacket::new_request_with(server, NtpTimestamp { ts: 5 }, NtpTimestamp { ts: 0xabcd });
    let expected: NtpPacket = NtpPacket {
        remote_addr: server,
        local_ts: NtpTimestamp { ts: 5 },
        leap: 0,
        version: 4,
        mode: 3,
        stratum: 1,
        poll: 0,
        precision: 0,
        delay: NtpFracValue { val: 0 },
        dispersion: NtpFracValue { val: 0 },
        ref_id: 0,
        ref_ts: NtpTimestamp { ts: 0 },
        orig_ts: NtpTimestamp { ts: 0 },
        rx_ts: NtpTimestamp { ts: 0 },
        tx_ts: NtpTimestamp { ts: 0xabcd },
    };
    assert_eq!(made, expected);
    assert!(made.is_request());
    assert_eq!(made.serialize()[0], 0x23u8);
}

#[test]
fn new_request_draws_a_nonce() {
    let server: PeerAddr = PeerAddr::V4 { ip: 0x0a00_0001, port: 123 };
    let a: NtpPacket = NtpPacket::new_request(server);
    let b: NtpPacket = NtpPacket::new_request(server);
    let c: NtpPacket = NtpPacket::new_request(server);
    assert_eq!(a, NtpPacket::new_request_with(server, a.local_ts, a.tx_ts));
    assert!(a.tx_ts != b.tx_ts || b.tx_ts != c.tx_ts);
    assert!(a.is_request());
}

#[test]
fn valid_response_needs_address_mode_and_echo() {
    let asked: NtpPacket = request(3, 4, client());
    let state: NtpServerState = reference();
    let good: NtpPacket = asked.make_response_at(&state, NtpTimestamp { ts: 1 }).unwrap();
    assert!(good.is_valid_response(&asked));

    let elsewhere: NtpPacket =
        NtpPacket { remote_addr: PeerAddr::V4 { ip: 0xc0a8_0102, port: 40_001 }, ..good };
    assert!(!elsewhere.is_valid_response(&asked));
    let other_host: NtpPacket =
        NtpPacket { remote_addr: PeerAddr::V4 { ip: 0xc0a8_0103, port: 40_000 }, ..good };
    assert!(!other_host.is_valid_response(&asked));
    let wrong_mode: NtpPacket = NtpPacket { mode: 2, ..good };
    assert!(!wrong_mode.is_valid_response(&asked));
    let wrong_echo: NtpPacket = NtpPacket { orig_ts: NtpTimestamp { ts: 0x2b }, ..good };
    assert!(!wrong_echo.is_valid_response(&asked));
}

#[test]
fn valid_response_tells_address_families_apart() {
    let v6: PeerAddr = PeerAddr::V6 { ip: 0xc0a8_0102, port: 40_000, flowinfo: 0, scope_id: 0 };
    let asked: NtpPacket = request(3, 4, v6);
    let good: NtpPacket = asked.make_response_at(&reference(), NtpTimestamp { ts: 1 }).unwrap();
    assert!(good.is_valid_response(&asked));
    let scoped: NtpPacket = NtpPacket {
        remote_addr: PeerAddr::V6 { ip: 0xc0a8_0102, port: 40_000, flowinfo: 0, scope_id: 1 },
        ..good
    };
    assert!(!scoped.is_valid_response(&asked));
    let v4: NtpPacket = NtpPacket { remote_addr: client(), ..good };
    assert!(!v4.is_valid_response(&asked));
}

#[test]
fn valid_response_of_the_highest_mode() {
    let asked: NtpPacket = NtpPacket { mode: 255, ..sample_packet() };
    let answer: NtpPacket = NtpPacket { mode: 0, orig_ts: asked.tx_ts, ..sample_packet() };
    assert!(!answer.is_valid_response(&asked));
    let asked: NtpPacket = NtpPacket { mode: 254, ..sample_packet() };
    let answer: NtpPacket = NtpPacket { mode: 255, orig_ts: asked.tx_ts, ..sample_packet() };
    assert!(answer.is_valid_response(&asked));
}

#[test]
fn server_state_of_a_packet() {
    let state: NtpServerState = sample_packet().get_server_state();
    let expected: NtpServerState = NtpServerState {
        leap: 3,
        stratum: 2,
        precision: -20,
        ref_id: 0x4750_5300,
        ref_ts: NtpTimestamp { ts: 0xe8fe_6f80_0000_0001 },
        dispersion: NtpFracValue { val: 0x0000_4000 },
        delay: NtpFracValue { val: 0x0001_8000 },
    };
    assert_eq!(state, expected);
}

#[test]
fn fresh_server_state() {
    let state: NtpServerState = NtpServerState::new();
    let expected: NtpServerState = NtpServerState {
        leap: 0,
        stratum: 1,
        precision: 0,
        ref_id: 0,
        ref_ts: NtpTimestamp { ts: 0 },
        dispersion: NtpFracValue { val: 0 },
        delay: NtpFracValue { val: 0 },
    };
    assert_eq!(state, expected);
    assert!(state.check_consistent());
}

#[test]
fn consistent_server_states() {
    let base: NtpServerState = NtpServerState::new();
    assert!(NtpServerState { leap: 3, stratum: 0, ..base }.check_consistent());
    assert!(NtpServerState { leap: 3, stratum: 16, ..base }.check_consistent());
    assert!(NtpServerState { leap: 2, stratum: 1, ..base }.check_consistent());
    assert!(!NtpServerState { leap: 0, stratum: 0, ..base }.check_consistent());
    assert!(!NtpServerState { leap: 2, stratum: 0, ..base }.check_consistent());
    assert!(!NtpServerState { leap: 4, stratum: 1, ..base }.check_consistent());
    assert!(!NtpServerState { leap: 255, stratum: 0, ..base }.check_consistent());
}
