use portal_relay::frames::{
    announce_port_frame, browser_frame_action, build_peer_frame, build_rinfo, Ipv4, PumpAction,
    WsEvent,
};

fn ip(a: u8, b: u8, c: u8, d: u8) -> Ipv4 {
    Ipv4 { a, b, c, d }
}

#[test]
fn forwards_long_binary_frame_unmodified() {
    // 4 address bytes, 2 port bytes (8080 big-endian), then the payload.
    let frame = vec![192u8, 168, 0, 1, 0x1f, 0x90, 9, 8, 7, 6, 5];
    match browser_frame_action(WsEvent::Binary(frame)) {
        PumpAction::Forward(dst, port, payload) => {
            assert_eq!(dst, ip(192, 168, 0, 1));
            assert_eq!(port, 8080);
            assert_eq!(payload, vec![9, 8, 7, 6, 5]);
        }
        _ => panic!("a 11-byte binary frame must be forwarded"),
    }
}

#[test]
fn forwards_exactly_six_bytes_as_empty_payload() {
    let frame = vec![10u8, 0, 0, 5, 0x23, 0x29];
    match browser_frame_action(WsEvent::Binary(frame)) {
        PumpAction::Forward(dst, port, payload) => {
            assert_eq!(dst, ip(10, 0, 0, 5));
            assert_eq!(port, 9001);
            assert!(payload.is_empty());
        }
        _ => panic!("a 6-byte binary frame must be forwarded"),
    }
}

#[test]
fn drops_short_binary_frame_and_stays_open() {
    for n in 0..6usize {
        let frame = vec![7u8; n];
        match browser_frame_action(WsEvent::Binary(frame)) {
            PumpAction::Ignore => {}
            _ => panic!("a {}-byte binary frame must be dropped, session open", n),
        }
    }
}

#[test]
fn ignores_text_frames() {
    match browser_frame_action(WsEvent::Text("port:4000".to_string())) {
        PumpAction::Ignore => {}
        _ => panic!("text frames are reserved and must be ignored"),
    }
}

#[test]
fn ignores_other_message_kinds() {
    match browser_frame_action(WsEvent::Other) {
        PumpAction::Ignore => {}
        _ => panic!("non-binary, non-text messages must be ignored"),
    }
}

#[test]
fn stops_on_websocket_failure() {
    match browser_frame_action(WsEvent::Failed) {
        PumpAction::Stop => {}
        _ => panic!("a WebSocket failure must end the session"),
    }
}

#[test]
fn rinfo_json_is_exact() {
    let r = build_rinfo(ip(127, 0, 0, 1), 9090);
    assert_eq!(
        String::from_utf8(r).unwrap(),
        "{\"address\":\"127.0.0.1\",\"family\":\"IPv4\",\"port\":9090}"
    );
}

#[test]
fn peer_frame_layout_is_length_json_payload() {
    let payload = vec![0xde, 0xad, 0xbe, 0xef];
    let frame = build_peer_frame(ip(10, 1, 2, 3), 4242, &payload);
    let json_len = ((frame[0] as usize) << 8) | frame[1] as usize;
    let json = &frame[2..2 + json_len];
    let rest = &frame[2 + json_len..];
    let v: serde_json::Value = serde_json::from_slice(json).unwrap();
    assert_eq!(v["address"], "10.1.2.3");
    assert_eq!(v["family"], "IPv4");
    assert_eq!(v["port"], 4242);
    assert_eq!(rest, payload.as_slice());
}

#[test]
fn peer_frame_roundtrip_preserves_sender_and_payload() {
    // A datagram from (ip, port) with payload P gives a frame whose decoded
    // metadata is that sender and whose trailing bytes equal P.
    let cases = [
        (ip(0, 0, 0, 0), 0u16, vec![]),
        (ip(255, 255, 255, 255), 65535, vec![1, 2, 3]),
        (ip(8, 8, 8, 8), 53, vec![0; 100]),
    ];
    for (src, port, payload) in cases {
        let frame = build_peer_frame(src, port, &payload);
        let json_len = ((frame[0] as usize) << 8) | frame[1] as usize;
        let v: serde_json::Value = serde_json::from_slice(&frame[2..2 + json_len]).unwrap();
        let addr = format!("{}.{}.{}.{}", src.a, src.b, src.c, src.d);
        assert_eq!(v["address"], addr.as_str());
        assert_eq!(v["port"], port);
        assert_eq!(&frame[2 + json_len..], payload.as_slice());
    }
}

#[test]
fn announce_port_frame_is_four_bytes_big_endian() {
    assert_eq!(announce_port_frame(8080), vec![0, 0, 0x1f, 0x90]);
    assert_eq!(announce_port_frame(0), vec![0, 0, 0, 0]);
    assert_eq!(announce_port_frame(65535), vec![0, 0, 0xff, 0xff]);
}
