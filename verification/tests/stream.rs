//! The streaming client's verified half: wire text, classification, the
//! backoff schedule, liveness, and the caller-side cache.

use route_tracker::config::ServerSettings;
use route_tracker::websocket::ClientCore;
use route_tracker::websocket::ConnectionStatus;
use route_tracker::websocket::CycleAction;
use route_tracker::websocket::IncomingMessage;
use route_tracker::websocket::OutgoingAction;
use route_tracker::websocket::OutgoingMessage;
use route_tracker::websocket::ResponseKind;
use route_tracker::websocket::StreamMachine;
use route_tracker::websocket::auth_outcome;
use route_tracker::websocket::build_ws_url;
use route_tracker::websocket::classify_response;
use route_tracker::websocket::encode_auth;
use route_tracker::websocket::encode_discovery;
use route_tracker::websocket::encode_pong;
use route_tracker::websocket::handle_incoming;
use route_tracker::websocket::handle_outgoing;
use route_tracker::websocket::is_enabled;
use route_tracker::websocket::url_is_secure;

#[test]
fn encoded_messages_are_the_documented_json() {
    assert_eq!(
        encode_auth("SECRET-REDACTED"),
        "{\"type\":\"auth\",\"token\":\"SECRET-REDACTED\"}"
    );
    assert_eq!(
        encode_discovery("Limgrave", "Stormhill"),
        "{\"type\":\"discovery\",\"source\":\"Limgrave\",\"target\":\"Stormhill\"}"
    );
    assert_eq!(encode_pong(), "{\"type\":\"pong\"}");
}

#[test]
fn encoded_messages_parse_as_json() {
    let v: serde_json::Value =
        serde_json::from_str(&encode_discovery("Charo's \"Grave\"", "A\\B")).unwrap();
    assert_eq!(v["type"], "discovery");
    assert_eq!(v["source"], "Charo's \"Grave\"");
    assert_eq!(v["target"], "A\\B");
    let a: serde_json::Value = serde_json::from_str(&encode_auth("tok\nen")).unwrap();
    assert_eq!(a["token"], "tok\nen");
}

#[test]
fn classification_of_canonical_forms() {
    assert!(matches!(
        classify_response("{\"type\":\"auth_ok\"}"),
        ResponseKind::AuthOk
    ));
    assert!(matches!(
        classify_response("{\"type\":\"ping\"}"),
        ResponseKind::Ping
    ));
    match classify_response("{\"type\":\"auth_error\",\"message\":\"bad token\"}") {
        ResponseKind::AuthError(m) => assert_eq!(m, "bad token"),
        _ => panic!("not an auth error"),
    }
    match classify_response("{\"type\":\"error\",\"message\":\"quota\"}") {
        ResponseKind::Error(m) => assert_eq!(m, "quota"),
        _ => panic!("not an error"),
    }
    match classify_response(
        "{\"type\":\"discovery_ack\",\"propagated\":[{\"source\":\"A\",\"target\":\"B\"},{\"source\":\"C\",\"target\":\"D\"}]}",
    ) {
        ResponseKind::DiscoveryAck(links) => {
            assert_eq!(links.len(), 2);
            assert_eq!(links[0].source, "A");
            assert_eq!(links[0].target, "B");
            assert_eq!(links[1].source, "C");
            assert_eq!(links[1].target, "D");
        },
        _ => panic!("not an acknowledgement"),
    }
    match classify_response("{\"type\":\"discovery_ack\",\"propagated\":[]}") {
        ResponseKind::DiscoveryAck(links) => assert_eq!(links.len(), 0),
        _ => panic!("not an acknowledgement"),
    }
    assert!(matches!(
        classify_response("{\"type\":\"something_new\"}"),
        ResponseKind::Unrecognized
    ));
    assert!(matches!(classify_response("not json"), ResponseKind::Unrecognized));
    // Escapes decode, including the canonical six-character control form.
    match classify_response("{\"type\":\"error\",\"message\":\"a\\\"b\\\\c\\nd\"}") {
        ResponseKind::Error(m) => assert_eq!(m, "a\"b\\c\nd"),
        _ => panic!("not an error"),
    }
    match classify_response("{\"type\":\"error\",\"message\":\"a\\u0000b\\u001fc\"}") {
        ResponseKind::Error(m) => assert_eq!(m, "a\u{0}b\u{1f}c"),
        _ => panic!("not an error"),
    }
    // A control character written with the wrong escape is not canonical.
    assert!(matches!(
        classify_response("{\"type\":\"error\",\"message\":\"a\\u000Ab\"}"),
        ResponseKind::Unrecognized
    ));
}

#[test]
fn classification_round_trips_the_canonical_escaper() {
    // Any payload written in the canonical escaping is recognised and
    // decoded back exactly; the canonical string is cut out of the
    // encoder's own output.
    let wild = "zone \"A\"\\ with\tcontrol \u{1}\u{1f} text\r\n";
    let auth = encode_auth(wild);
    let quoted = &auth["{\"type\":\"auth\",\"token\":".len()..auth.len() - 1];
    let error_text = format!("{{\"type\":\"error\",\"message\":{}}}", quoted);
    match classify_response(&error_text) {
        ResponseKind::Error(m) => assert_eq!(m, wild),
        _ => panic!("canonical text went unrecognised"),
    }
    let ack_text = format!(
        "{{\"type\":\"discovery_ack\",\"propagated\":[{{\"source\":{},\"target\":\"B\"}}]}}",
        quoted
    );
    match classify_response(&ack_text) {
        ResponseKind::DiscoveryAck(links) => {
            assert_eq!(links.len(), 1);
            assert_eq!(links[0].source, wild);
            assert_eq!(links[0].target, "B");
        },
        _ => panic!("canonical text went unrecognised"),
    }
}

#[test]
fn constant_messages_tolerate_spacing() {
    // The two payload-free messages are matched on their non-whitespace
    // characters, so a peer's formatting cannot starve the liveness clock
    // or fail authentication.
    assert!(matches!(
        classify_response("{ \"type\" : \"ping\" }"),
        ResponseKind::Ping
    ));
    assert!(matches!(
        classify_response("{\n  \"type\": \"auth_ok\"\n}"),
        ResponseKind::AuthOk
    ));
    assert!(matches!(
        handle_incoming("{ \"type\" : \"ping\" }"),
        Some(IncomingMessage::Ping)
    ));
    assert!(auth_outcome("{ \"type\": \"auth_ok\" }").is_ok());
    // Payload-bearing forms stay canonical: a spaced acknowledgement is
    // ignored, which the protocol allows.
    assert!(matches!(
        classify_response("{\"type\": \"discovery_ack\",\"propagated\":[]}"),
        ResponseKind::Unrecognized
    ));
}

#[test]
fn only_auth_ok_advances_authentication() {
    assert!(auth_outcome("{\"type\":\"auth_ok\"}").is_ok());
    assert_eq!(
        auth_outcome("{\"type\":\"auth_error\",\"message\":\"nope\"}").unwrap_err(),
        "Auth failed: nope"
    );
    assert_eq!(
        auth_outcome("{\"type\":\"ping\"}").unwrap_err(),
        "Unexpected response during auth"
    );
    assert_eq!(
        auth_outcome("garbage").unwrap_err(),
        "Unexpected response during auth"
    );
}

#[test]
fn steady_state_forwarding() {
    assert!(matches!(
        handle_incoming("{\"type\":\"ping\"}"),
        Some(IncomingMessage::Ping)
    ));
    assert!(matches!(
        handle_incoming("{\"type\":\"auth_ok\"}"),
        None
    ));
    match handle_incoming("{\"type\":\"discovery_ack\",\"propagated\":[{\"source\":\"A\",\"target\":\"B\"}]}") {
        Some(IncomingMessage::DiscoveryAck { propagated }) => {
            assert_eq!(propagated.len(), 1);
            assert_eq!(propagated[0].source, "A");
        },
        _ => panic!("acknowledgement was not forwarded"),
    }
    match handle_incoming("{\"type\":\"error\",\"message\":\"quota\"}") {
        Some(IncomingMessage::Error(e)) => assert_eq!(e, "quota"),
        _ => panic!("error was not forwarded"),
    }
    match handle_outgoing(&OutgoingMessage::Discovery {
        source: "Limgrave".to_string(),
        target: "Stormhill".to_string(),
    }) {
        OutgoingAction::SendText(t) => {
            assert_eq!(t, encode_discovery("Limgrave", "Stormhill"))
        },
        OutgoingAction::Finish => panic!("not a send"),
    }
    assert!(matches!(
        handle_outgoing(&OutgoingMessage::Shutdown),
        OutgoingAction::Finish
    ));
}

#[test]
fn backoff_waits_one_two_four_eight_then_caps() {
    let mut m = StreamMachine::new(true);
    let mut waits: Vec<u64> = Vec::new();
    for _ in 0..8 {
        m.begin_connect();
        m.on_connect_failed();
        match m.next_cycle() {
            CycleAction::Wait(secs) => waits.push(secs),
            CycleAction::Stop => panic!("should retry"),
        }
    }
    assert_eq!(waits, vec![1, 2, 4, 8, 16, 30, 30, 30]);
}

#[test]
fn backoff_resets_after_a_connected_cycle() {
    let mut m = StreamMachine::new(true);
    for _ in 0..5 {
        m.on_connect_failed();
        m.next_cycle();
    }
    m.begin_connect();
    m.begin_auth();
    m.on_connected(10_000);
    assert_eq!(m.next_cycle(), CycleAction::Wait(1));
}

#[test]
fn shutdown_and_disabled_reconnect_stop_the_actor() {
    let mut m = StreamMachine::new(false);
    m.on_connect_failed();
    assert_eq!(m.next_cycle(), CycleAction::Stop);

    let mut m2 = StreamMachine::new(true);
    m2.request_shutdown();
    assert_eq!(m2.next_cycle(), CycleAction::Stop);
}

#[test]
fn liveness_times_out_after_a_minute() {
    let mut m = StreamMachine::new(true);
    m.on_connected(1_000);
    assert!(!m.liveness_expired(61_000));
    assert!(m.liveness_expired(61_001));
    m.note_pong_sent(61_000);
    assert!(!m.liveness_expired(121_000));
}

#[test]
fn client_cache_follows_messages() {
    let mut c = ClientCore::new();
    assert_eq!(c.status(), ConnectionStatus::Disconnected);
    assert!(!c.is_connected());
    let pong = c.absorb(&IncomingMessage::StatusChanged(ConnectionStatus::Connected));
    assert!(!pong);
    assert!(c.is_connected());
    assert!(c.absorb(&IncomingMessage::Ping));
    assert!(c.absorb(&IncomingMessage::Error("boom".to_string())) == false);
    assert_eq!(c.last_error(), Some("boom"));
    c.on_channel_closed();
    assert_eq!(c.status(), ConnectionStatus::Disconnected);
}

#[test]
fn status_text() {
    assert_eq!(ConnectionStatus::Disconnected.display_text(), "Disconnected");
    assert_eq!(ConnectionStatus::Connecting.display_text(), "Connecting...");
    assert_eq!(ConnectionStatus::Connected.display_text(), "Connected");
    assert_eq!(ConnectionStatus::Error.display_text(), "Error");
}

#[test]
fn endpoint_and_scheme() {
    assert_eq!(
        build_ws_url("wss://example.com/", "g1"),
        "wss://example.com/ws/mod/g1"
    );
    assert_eq!(
        build_ws_url("ws://example.com///", "g2"),
        "ws://example.com/ws/mod/g2"
    );
    assert!(url_is_secure("wss://example.com"));
    assert!(!url_is_secure("ws://example.com"));
    assert!(!url_is_secure("not a url"));
}

#[test]
fn enablement_needs_every_field() {
    let mut s = ServerSettings::default();
    assert!(!is_enabled(&s));
    s.enabled = true;
    s.url = "wss://example.com".to_string();
    s.api_token = "SECRET-REDACTED".to_string();
    assert!(!is_enabled(&s));
    s.game_id = "g1".to_string();
    assert!(is_enabled(&s));
}
