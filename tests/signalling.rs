use remotevcchost::candidate::{forwarded_candidates, mdns_host, resolved_candidate, with_address};
use remotevcchost::connection::{Link, LinkAction, LinkEvent, LinkStatus, RECONNECT_DELAY_MILLIS};
use remotevcchost::error::{ConnectError, RVCCError};
use remotevcchost::protocol::{decimal, decode, encode, read_envelope, route, DropReason, Envelope, Inbound, Outbound};
use remotevcchost::signaller::Signaller;

const CANDIDATE: &str = "candidate:1 1 UDP 2130706431 host.local 54321 typ host";

fn dropped(text: &str) -> Option<DropReason> {
    match decode(text) {
        Inbound::Dropped { reason } => Some(reason),
        _ => None,
    }
}

#[test]
fn mdns_candidate_is_forwarded_twice_when_resolved() {
    let lines = forwarded_candidates(CANDIDATE, Some("192.0.2.5".to_string()));
    assert_eq!(
        lines,
        vec![
            CANDIDATE.to_string(),
            "candidate:1 1 UDP 2130706431 192.0.2.5 54321 typ host".to_string()
        ]
    );
}

#[test]
fn mdns_candidate_alone_when_resolution_fails() {
    assert_eq!(forwarded_candidates(CANDIDATE, None), vec![CANDIDATE.to_string()]);
    assert_eq!(resolved_candidate(CANDIDATE, None), None);
}

#[test]
fn plain_address_is_not_rewritten() {
    let c = "candidate:1 1 UDP 2130706431 10.0.0.2 54321 typ host";
    assert_eq!(mdns_host(c), None);
    assert_eq!(forwarded_candidates(c, Some("192.0.2.5".to_string())), vec![c.to_string()]);
}

#[test]
fn mdns_host_is_the_fifth_token() {
    assert_eq!(mdns_host(CANDIDATE), Some("host.local".to_string()));
    assert_eq!(mdns_host("a b c d x.local"), Some("x.local".to_string()));
    assert_eq!(mdns_host("a b c d"), None);
    assert_eq!(mdns_host("a b c d .local e"), Some(".local".to_string()));
    assert_eq!(mdns_host("a b c d local e"), None);
    assert_eq!(mdns_host(""), None);
}

#[test]
fn address_replacement_keeps_the_rest() {
    assert_eq!(with_address("a b c d e f", "X"), Some("a b c d X f".to_string()));
    assert_eq!(with_address("a b c d e", "X"), Some("a b c d X".to_string()));
    assert_eq!(with_address("a b c d", "X"), None);
    assert_eq!(with_address("a b c d ", "X"), Some("a b c d X".to_string()));
}

#[test]
fn request_registers_one_consumer() {
    match decode(r#"{"client-id":"abc","type":"request"}"#) {
        Inbound::Request { client_id } => assert_eq!(client_id, "abc"),
        _ => panic!("expected a request"),
    }
}

#[test]
fn answer_hands_over_the_sdp() {
    match decode(r#"{"client-id":"abc","type":"answer","payload":{"sdp":"v=0\r\no=- 1 1 IN IP4 0.0.0.0\r\n"}}"#) {
        Inbound::Answer { client_id, sdp } => {
            assert_eq!(client_id, "abc");
            assert_eq!(sdp, "v=0\r\no=- 1 1 IN IP4 0.0.0.0\r\n");
        }
        _ => panic!("expected an answer"),
    }
}

#[test]
fn answer_without_sdp_hands_over_empty_text() {
    match decode(r#"{"client-id":"abc","type":"answer"}"#) {
        Inbound::Answer { sdp, .. } => assert_eq!(sdp, ""),
        _ => panic!("expected an answer"),
    }
}

#[test]
fn ice_candidate_is_decoded() {
    let text = format!(
        r#"{{"client-id":"abc","type":"ice-candidate","payload":{{"candidate":"{}","sdpMLineIndex":1,"sdpMid":"0"}}}}"#,
        CANDIDATE
    );
    match decode(&text) {
        Inbound::IceCandidate { client_id, candidate, sdp_mline_index, sdp_mid } => {
            assert_eq!(client_id, "abc");
            assert_eq!(candidate, CANDIDATE);
            assert_eq!(sdp_mline_index, 1);
            assert_eq!(sdp_mid, Some("0".to_string()));
        }
        _ => panic!("expected a candidate"),
    }
}

#[test]
fn ice_mline_index_out_of_range_becomes_zero() {
    let text = r#"{"client-id":"abc","type":"ice-candidate","payload":{"candidate":"c","sdpMLineIndex":4294967296}}"#;
    match decode(text) {
        Inbound::IceCandidate { sdp_mline_index, sdp_mid, .. } => {
            assert_eq!(sdp_mline_index, 0);
            assert_eq!(sdp_mid, None);
        }
        _ => panic!("expected a candidate"),
    }
}

#[test]
fn ice_without_candidate_is_dropped() {
    assert_eq!(
        dropped(r#"{"client-id":"abc","type":"ice-candidate","payload":{"sdpMLineIndex":0}}"#),
        Some(DropReason::NoCandidate)
    );
}

#[test]
fn malformed_frames_are_dropped() {
    assert_eq!(dropped("not json"), Some(DropReason::NotJson));
    assert_eq!(dropped(""), Some(DropReason::NotJson));
    assert_eq!(dropped("{\"client-id\":"), Some(DropReason::NotJson));
    assert_eq!(dropped("[1,2]"), Some(DropReason::NoClientId));
    assert_eq!(dropped("\"abc\""), Some(DropReason::NoClientId));
    assert_eq!(dropped("42"), Some(DropReason::NoClientId));
}

#[test]
fn missing_or_empty_client_id_is_dropped() {
    assert_eq!(dropped(r#"{"type":"request"}"#), Some(DropReason::NoClientId));
    assert_eq!(dropped(r#"{"client-id":"","type":"request"}"#), Some(DropReason::NoClientId));
    assert_eq!(dropped(r#"{"client-id":7,"type":"request"}"#), Some(DropReason::NoClientId));
}

#[test]
fn unknown_type_is_dropped() {
    assert_eq!(dropped(r#"{"client-id":"abc","type":"offer"}"#), Some(DropReason::UnsupportedType));
    assert_eq!(dropped(r#"{"client-id":"abc"}"#), Some(DropReason::UnsupportedType));
}

#[test]
fn route_reads_fields() {
    let e = Envelope {
        client_id: Some("v".to_string()),
        kind: Some("request".to_string()),
        sdp: None,
        candidate: None,
        sdp_mline_index: None,
        sdp_mid: None,
    };
    assert!(matches!(route(&e), Inbound::Request { client_id } if client_id == "v"));
}

#[test]
fn offer_serialization() {
    let m = Outbound::Offer { peer_id: "p1".to_string(), sdp: "v=0...".to_string() };
    assert_eq!(
        encode(&m),
        r#"{"client-id":"p1","type":"offer","payload":{"type":"offer","sdp":"v=0..."}}"#
    );
}

#[test]
fn strings_are_escaped() {
    let s = Signaller::new();
    assert_eq!(
        s.handle_sdp("a\"b", "v=0\r\n"),
        r#"{"client-id":"a\"b","type":"offer","payload":{"type":"offer","sdp":"v=0\r\n"}}"#
    );
}

#[test]
fn host_ready_serialization() {
    assert_eq!(encode(&Outbound::HostReady), r#"{"client-id":"broadcast","type":"host-ready"}"#);
    assert_eq!(Signaller::new().start(), r#"{"client-id":"broadcast","type":"host-ready"}"#);
}

#[test]
fn ice_serialization_fills_absent_fields() {
    let s = Signaller::new();
    assert_eq!(
        s.handle_ice("p1", "candidate:x", None, None),
        r#"{"client-id":"p1","type":"ice-candidate","payload":{"candidate":"candidate:x","sdpMid":"","sdpMLineIndex":0}}"#
    );
    assert_eq!(
        s.handle_ice("p1", "candidate:x", Some(12), Some("audio".to_string())),
        r#"{"client-id":"p1","type":"ice-candidate","payload":{"candidate":"candidate:x","sdpMid":"audio","sdpMLineIndex":12}}"#
    );
}

#[test]
fn round_trip_keeps_fields() {
    let e = read_envelope(&encode(&Outbound::HostReady)).unwrap();
    assert_eq!(e.client_id.as_deref(), Some("broadcast"));
    assert_eq!(e.kind.as_deref(), Some("host-ready"));

    let e = read_envelope(&encode(&Outbound::Offer {
        peer_id: "p\"1".to_string(),
        sdp: "v=0\r\n".to_string(),
    }))
    .unwrap();
    assert_eq!(e.client_id.as_deref(), Some("p\"1"));
    assert_eq!(e.kind.as_deref(), Some("offer"));
    assert_eq!(e.sdp.as_deref(), Some("v=0\r\n"));

    let e = read_envelope(&encode(&Outbound::IceCandidate {
        peer_id: "p1".to_string(),
        candidate: CANDIDATE.to_string(),
        sdp_mline_index: Some(3),
        sdp_mid: Some("v".to_string()),
    }))
    .unwrap();
    assert_eq!(e.client_id.as_deref(), Some("p1"));
    assert_eq!(e.kind.as_deref(), Some("ice-candidate"));
    assert_eq!(e.candidate.as_deref(), Some(CANDIDATE));
    assert_eq!(e.sdp_mline_index, Some(3));
    assert_eq!(e.sdp_mid.as_deref(), Some("v"));
}

#[test]
fn decimal_digits() {
    assert_eq!(decimal(0), "0");
    assert_eq!(decimal(7), "7");
    assert_eq!(decimal(10), "10");
    assert_eq!(decimal(4294967295), "4294967295");
}

#[test]
fn reconnects_once_per_delay_forever() {
    let mut s = Signaller::new();
    assert_eq!(s.connect("wss://router.example/host"), LinkAction::Connect);
    assert_eq!(s.connect_result(true), LinkAction::Nothing);
    assert_eq!(s.on_event(LinkEvent::StreamEnded), LinkAction::Wait { millis: RECONNECT_DELAY_MILLIS });
    assert_eq!(RECONNECT_DELAY_MILLIS, 1000);
    for _ in 0..50 {
        assert_eq!(s.on_event(LinkEvent::DelayElapsed), LinkAction::Connect);
        assert_eq!(s.on_event(LinkEvent::DelayElapsed), LinkAction::Nothing);
        assert_eq!(s.on_event(LinkEvent::OpenFailed), LinkAction::Wait { millis: 1000 });
    }
    assert_eq!(s.on_event(LinkEvent::DelayElapsed), LinkAction::Connect);
    assert_eq!(s.on_event(LinkEvent::Opened), LinkAction::Announce);
    assert_eq!(s.status(), LinkStatus::Connected);
}

#[test]
fn link_starts_disconnected() {
    let mut l = Link::new();
    assert_eq!(l.status, LinkStatus::Disconnected);
    assert_eq!(l.on_event(LinkEvent::StreamEnded), LinkAction::Nothing);
    assert_eq!(l.requested(true), LinkAction::Nothing);
    assert_eq!(l.status, LinkStatus::Connected);
    assert_eq!(l.requested(true), LinkAction::Announce);
}

#[test]
fn first_connection_failure_is_fatal() {
    let mut s = Signaller::new();
    assert_eq!(s.connect("wss://router.example/host"), LinkAction::Connect);
    assert_eq!(s.url(), "wss://router.example/host");
    assert_eq!(s.connect_result(false), LinkAction::Abort);
    assert_eq!(s.status(), LinkStatus::Disconnected);
}

#[test]
fn connect_always_asks_for_a_new_connection() {
    let mut s = Signaller::new();
    assert_eq!(s.connect("wss://a"), LinkAction::Connect);
    assert_eq!(s.connect_result(true), LinkAction::Nothing);
    assert_eq!(s.connect("wss://b"), LinkAction::Connect);
    assert_eq!(s.url(), "wss://b");
    assert_eq!(s.status(), LinkStatus::Connected);
    assert_eq!(s.connect_result(false), LinkAction::Abort);
    assert_eq!(s.status(), LinkStatus::Connected);
    assert_eq!(s.connect("wss://c"), LinkAction::Connect);
    assert_eq!(s.connect_result(true), LinkAction::Announce);
    assert_eq!(s.on_event(LinkEvent::StreamEnded), LinkAction::Wait { millis: 1000 });
    assert_eq!(s.connect("wss://d"), LinkAction::Connect);
    assert_eq!(s.status(), LinkStatus::Reconnecting);
    assert_eq!(s.connect_result(true), LinkAction::Announce);
    assert_eq!(s.on_event(LinkEvent::DelayElapsed), LinkAction::Nothing);
}

#[test]
fn connect_errors_map_to_host_errors() {
    let e = RVCCError::from_connect(ConnectError::Tls("bad certificate".to_string()));
    assert_eq!(
        e.message(),
        "Error: Router TLS error >>> if using a Self Signed Certificate on the router, ensure this is installed on the system <<< (bad certificate)"
    );
    let e = RVCCError::from_connect(ConnectError::Network("refused".to_string()));
    assert!(matches!(&e, RVCCError::RouterComms(d) if d == "refused"));
    assert_eq!(e.message(), "Router Connection (WebSocket) Error: refused");
}

#[test]
fn control_characters_are_escaped() {
    let s = Signaller::new();
    assert_eq!(
        s.handle_sdp("p\\1", "a\u{1}\u{8}\u{c}\tb"),
        r#"{"client-id":"p\\1","type":"offer","payload":{"type":"offer","sdp":"a\u0001\b\f\tb"}}"#
    );
}

#[test]
fn non_object_json_reads_without_fields() {
    let e = read_envelope("[\"client-id\"]").unwrap();
    assert_eq!(e.client_id, None);
    assert_eq!(e.kind, None);
    assert!(read_envelope("{").is_none());
    assert_eq!(dropped("null"), Some(DropReason::NoClientId));
    assert_eq!(dropped("true"), Some(DropReason::NoClientId));
}
