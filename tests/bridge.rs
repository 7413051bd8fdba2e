use dtnchat::channel::{ChannelAction, ChannelEvent, ChannelState, ChatConnection, HandshakeProfile};
use dtnchat::codec::encode;
use dtnchat::dispatch::{frame_for, Frame, Outgoing, WsCommand, REQUEST_DELIVERY};
use dtnchat::endpoint::{parse_endpoint, ChatError, Endpoint};
use dtnchat::router::{reply, route, InboundBundle, RouteAction};
use dtnchat::session::{complete, send_sms, split_first_word, Session, DEFAULT_LIFETIME_MS};

fn dtn(node: &str) -> Endpoint {
    Endpoint::Dtn { node: node.to_string(), service: "sms".to_string() }
}

fn decoded(bytes: &[u8]) -> (bool, String) {
    let sms: dtn7_plus::sms::SMS = serde_cbor::from_slice(bytes).unwrap();
    (sms.compression(), sms.msg())
}

fn ready_connection() -> ChatConnection {
    let mut c = ChatConnection::new(HandshakeProfile::bundle(), dtn("node1"), false);
    c.on_event(ChannelEvent::Opened);
    c.on_event(ChannelEvent::Text("200 tx mode: bundle".to_string()));
    c.on_event(ChannelEvent::Text("200 subscribed".to_string()));
    assert_eq!(c.state, ChannelState::Ready);
    c
}

fn sms_bundle_bytes(src: u64, dst: u64, msg: &str, compression: bool) -> Vec<u8> {
    let mut b = dtn7_plus::sms::new_sms(src, dst, msg, compression).unwrap();
    b.to_cbor()
}

#[test]
fn endpoint_name_is_dtn_chat_endpoint() {
    let e = parse_endpoint("node1").unwrap();
    assert_eq!(e.format(), "dtn://node1/sms");
    assert_eq!(e.node_identity(), Some("node1".to_string()));
}

#[test]
fn endpoint_number_is_ipn_chat_endpoint() {
    let e = parse_endpoint("23").unwrap();
    assert!(matches!(e, Endpoint::Ipn { node: 23, service: 767 }));
    assert_eq!(e.format(), "ipn:23.767");
    assert_eq!(e.node_identity(), Some("23".to_string()));
}

#[test]
fn endpoint_invalid_inputs() {
    assert_eq!(parse_endpoint("0").unwrap_err(), ChatError::InvalidEndpoint);
    assert_eq!(parse_endpoint("").unwrap_err(), ChatError::InvalidEndpoint);
    assert_eq!(parse_endpoint("a/b").unwrap_err(), ChatError::InvalidEndpoint);
}

#[test]
fn endpoint_format_parses_back() {
    for s in ["+42", "42", "node7", "18446744073709551615", "ipn:9.767", "dtn://n3/sms"] {
        let e = parse_endpoint(s).unwrap();
        let again = parse_endpoint(&e.format()).unwrap();
        assert!(e.same_as(&again));
    }
    assert_eq!(parse_endpoint("+42").unwrap().format(), "ipn:42.767");
}

#[test]
fn endpoint_uris() {
    assert_eq!(parse_endpoint("dtn://node3/sms").unwrap().format(), "dtn://node3/sms");
    assert_eq!(parse_endpoint("ipn:42.767").unwrap().format(), "ipn:42.767");
    assert_eq!(parse_endpoint("dtn://node3/mail").unwrap_err(), ChatError::InvalidEndpoint);
    assert_eq!(parse_endpoint("ipn:42.7").unwrap_err(), ChatError::InvalidEndpoint);
    assert_eq!(parse_endpoint("dtn:none").unwrap_err(), ChatError::InvalidEndpoint);
    assert_eq!(parse_endpoint("ipn://42.767").unwrap_err(), ChatError::InvalidEndpoint);
    assert!(matches!(dtnchat::endpoint::parse_uri("dtn:none"), Some(Endpoint::DtnNone)));
    match dtnchat::endpoint::parse_uri("dtn://node1/") {
        Some(Endpoint::Dtn { node, service }) => {
            assert_eq!(node, "node1");
            assert_eq!(service, "");
        }
        _ => panic!("dtn endpoint expected"),
    }
    assert!(dtnchat::endpoint::parse_uri("ipn:1").is_none());
}

#[test]
fn codec_round_trip_both_flags() {
    for flag in [true, false] {
        let b = encode("  hello dtn world \n", flag);
        assert_eq!(decoded(&b), (flag, "hello dtn world".to_string()));
    }
}

#[test]
fn handshake_in_order() {
    let mut c = ChatConnection::new(HandshakeProfile::bundle(), dtn("node1"), false);
    match c.on_event(ChannelEvent::Opened) {
        ChannelAction::SendText(t) => assert_eq!(t, "/bundle"),
        _ => panic!("mode command expected"),
    }
    assert_eq!(c.state, ChannelState::HandshakeModePending);
    match c.on_event(ChannelEvent::Text("200 tx mode: bundle".to_string())) {
        ChannelAction::SendText(t) => assert_eq!(t, "/subscribe dtn://node1/sms"),
        _ => panic!("subscribe command expected"),
    }
    assert_eq!(c.state, ChannelState::HandshakeSubscribePending);
    assert!(!c.subscribed());
    assert!(matches!(c.on_event(ChannelEvent::Text("200 subscribed".to_string())), ChannelAction::Nothing));
    assert!(c.subscribed());
}

#[test]
fn handshake_wrong_mode_answer_fails() {
    let mut c = ChatConnection::new(HandshakeProfile::bundle(), dtn("node1"), false);
    c.on_event(ChannelEvent::Opened);
    assert!(matches!(c.on_event(ChannelEvent::Text("400 no".to_string())), ChannelAction::Fatal(_)));
    assert_eq!(c.state, ChannelState::Failed);
    assert!(matches!(c.on_event(ChannelEvent::Text("200 subscribed".to_string())), ChannelAction::Nothing));
    assert_eq!(c.state, ChannelState::Failed);
}

#[test]
fn handshake_ack_must_match_whole_text() {
    let mut c = ChatConnection::new(HandshakeProfile::bundle(), dtn("node1"), false);
    c.on_event(ChannelEvent::Opened);
    assert!(matches!(c.on_event(ChannelEvent::Text("200 tx mode: bundle!".to_string())), ChannelAction::Fatal(_)));
    assert_eq!(c.state, ChannelState::Failed);
    let mut c = ChatConnection::new(HandshakeProfile::bundle(), dtn("node1"), false);
    c.on_event(ChannelEvent::Opened);
    c.on_event(ChannelEvent::Text("200 tx mode: bundle".to_string()));
    assert!(matches!(c.on_event(ChannelEvent::Text("200 subscribed twice".to_string())), ChannelAction::Fatal(_)));
    assert!(!c.subscribed());
}

#[test]
fn handshake_wrong_subscribe_answer_fails() {
    let mut c = ChatConnection::new(HandshakeProfile::data(), dtn("node1"), false);
    c.on_event(ChannelEvent::Opened);
    c.on_event(ChannelEvent::Text("200 tx mode: data".to_string()));
    assert!(matches!(c.on_event(ChannelEvent::Text("subscribed".to_string())), ChannelAction::Fatal(_)));
    assert_eq!(c.state, ChannelState::Failed);
}

#[test]
fn close_during_handshake_is_fatal() {
    let mut c = ChatConnection::new(HandshakeProfile::bundle(), dtn("node1"), false);
    c.on_event(ChannelEvent::Opened);
    assert!(matches!(c.on_event(ChannelEvent::Closed), ChannelAction::Fatal(_)));
}

#[test]
fn ready_frames() {
    let mut c = ready_connection();
    assert!(matches!(c.on_event(ChannelEvent::Text("200 ok".to_string())), ChannelAction::Nothing));
    match c.on_event(ChannelEvent::Text("oops".to_string())) {
        ChannelAction::Warn(w) => assert_eq!(w, "oops"),
        _ => panic!("warning expected"),
    }
    match c.on_event(ChannelEvent::Binary(vec![1, 2, 3])) {
        ChannelAction::Route(b) => assert_eq!(b, vec![1, 2, 3]),
        _ => panic!("route expected"),
    }
    assert!(matches!(c.on_event(ChannelEvent::Closed), ChannelAction::Stop));
    assert_eq!(c.state, ChannelState::Closed);
}

#[test]
fn malformed_frame_dropped_next_processed() {
    let mut c = ready_connection();
    c.on_event(ChannelEvent::Binary(vec![0xff, 0x00, 0x13]));
    assert!(matches!(c.on_bundle(&[0xff, 0x00, 0x13]), RouteAction::Malformed));
    assert_eq!(c.state, ChannelState::Ready);
    let good = sms_bundle_bytes(5, 6, "hi there", true);
    match c.on_bundle(&good) {
        RouteAction::Deliver(d) => {
            assert_eq!(d.text, "hi there");
            assert!(d.compressed);
            assert!(d.display);
            assert!(d.respond);
            assert_eq!(d.source.format(), "ipn:5.767");
            assert_eq!(d.destination.format(), "ipn:6.767");
            assert_eq!(d.lifetime_ms, 3600000);
        }
        _ => panic!("delivery expected"),
    }
}

#[test]
fn own_message_hidden_unless_verbose() {
    let own = Endpoint::Ipn { node: 5, service: 767 };
    let bytes = sms_bundle_bytes(5, 6, "echo", false);
    for verbose in [false, true] {
        let c = ChatConnection::new(HandshakeProfile::bundle(), own.clone(), verbose);
        match c.on_bundle(&bytes) {
            RouteAction::Deliver(d) => {
                assert_eq!(d.display, verbose);
                assert!(!d.respond);
            }
            _ => panic!("delivery expected"),
        }
    }
}

fn inbound(administrative: bool, source: Endpoint, text: Option<&str>) -> InboundBundle {
    InboundBundle {
        administrative,
        source,
        destination: dtn("me"),
        lifetime_ms: 1000,
        created_unix: 1,
        message: text.map(|t| dtnchat::codec::ChatMessage { compressed: false, text: t.to_string() }),
    }
}

#[test]
fn route_drops_admin_anonymous_and_foreign_payloads() {
    assert!(matches!(route(inbound(true, dtn("a"), Some("x")), &dtn("me"), true), RouteAction::Ignore));
    assert!(matches!(route(inbound(false, Endpoint::DtnNone, Some("x")), &dtn("me"), true), RouteAction::Ignore));
    assert!(matches!(route(inbound(false, dtn("a"), None), &dtn("me"), true), RouteAction::Unexpected));
}

#[test]
fn responder_reply_swaps_endpoints() {
    let bytes = sms_bundle_bytes(5, 6, "hello eliza", true);
    let c = ChatConnection::new(HandshakeProfile::bundle(), dtn("bot"), false);
    let d = match c.on_bundle(&bytes) {
        RouteAction::Deliver(d) => d,
        _ => panic!("delivery expected"),
    };
    let o = reply(&d, "How do you do?");
    assert_eq!(o.src.format(), "ipn:6.767");
    assert_eq!(o.dst.format(), "ipn:5.767");
    assert!(matches!(o.report_to, Endpoint::DtnNone));
    assert_eq!(o.lifetime_ms, d.lifetime_ms);
    assert!(!o.delivery_notification);
    assert_eq!(decoded(&o.data), (true, "How do you do?".to_string()));
}

#[test]
fn frames_one_per_command_in_order() {
    let out = Outgoing {
        src: dtn("a"),
        dst: dtn("b"),
        report_to: Endpoint::DtnNone,
        delivery_notification: true,
        lifetime_ms: 1000,
        data: encode("x", false),
    };
    let cmds = vec![WsCommand::Text("/subscribe dtn://a/sms".to_string()), WsCommand::SendData(out), WsCommand::Text("/x".to_string())];
    let frames: Vec<Frame> = cmds.into_iter().map(|c| frame_for(c).unwrap()).collect();
    assert_eq!(frames.len(), 3);
    assert!(matches!(&frames[0], Frame::Text(t) if t == "/subscribe dtn://a/sms"));
    assert!(matches!(&frames[1], Frame::Binary(b) if !b.is_empty()));
    assert!(matches!(&frames[2], Frame::Text(t) if t == "/x"));
}

#[test]
fn delivery_report_flags() {
    let mk = |dst: Endpoint, n: bool| Outgoing {
        src: dtn("a"),
        dst,
        report_to: Endpoint::DtnNone,
        delivery_notification: n,
        lifetime_ms: 1,
        data: vec![],
    };
    assert_eq!(mk(dtn("b"), true).control_flags(), REQUEST_DELIVERY);
    assert_eq!(REQUEST_DELIVERY, 0x020000);
    assert_eq!(mk(dtn("b"), false).control_flags(), 0);
    assert_eq!(mk(Endpoint::Dtn { node: "gw".to_string(), service: "sms2".to_string() }, true).control_flags(), 0);
}

#[test]
fn leave_self_is_noop_other_always_unsubscribes() {
    let mut s = Session::new(dtn("node1"));
    assert!(s.leave("node1").unwrap().is_none());
    match s.leave("group9").unwrap() {
        Some(WsCommand::Text(t)) => assert_eq!(t, "/unsubscribe dtn://group9/sms"),
        _ => panic!("unsubscribe expected"),
    }
    assert_eq!(s.leave("a/b").unwrap_err(), ChatError::InvalidEndpoint);
}

#[test]
fn join_then_leave_tracks_groups() {
    let mut s = Session::new(dtn("node1"));
    match s.join("42").unwrap() {
        WsCommand::Text(t) => assert_eq!(t, "/subscribe ipn:42.767"),
        _ => panic!("subscribe expected"),
    }
    match s.join("42").unwrap() {
        WsCommand::Text(t) => assert_eq!(t, "/subscribe ipn:42.767"),
        _ => panic!("subscribe expected"),
    }
    assert_eq!(s.groups, vec!["42".to_string()]);
    assert_eq!(s.peers, vec!["42".to_string()]);
    s.leave("42").unwrap();
    assert!(s.groups.is_empty());
    assert!(s.peers.is_empty());
}

#[test]
fn query_set_and_cleared() {
    let mut s = Session::new(dtn("node1"));
    s.set_query("bob").unwrap();
    assert_eq!(s.query.as_ref().unwrap().format(), "dtn://bob/sms");
    assert_eq!(s.peers, vec!["bob".to_string()]);
    assert_eq!(s.set_query("0").unwrap_err(), ChatError::InvalidEndpoint);
    s.set_query("").unwrap();
    assert!(s.query.is_none());
}

#[test]
fn lifetime_commands() {
    let mut s = Session::new(dtn("node1"));
    assert_eq!(s.lifetime_ms, DEFAULT_LIFETIME_MS);
    s.set_lifetime("2h").unwrap();
    assert_eq!(s.lifetime_ms, 7_200_000);
    assert_eq!(s.set_lifetime("bogus").unwrap_err(), ChatError::InvalidDuration);
    assert_eq!(s.lifetime_ms, 7_200_000);
    s.set_lifetime("").unwrap();
    assert_eq!(s.lifetime_ms, 7_200_000);
}

#[test]
fn split_first_word_cases() {
    assert_eq!(split_first_word("  /msg  bob hi there "), ("/msg", "bob hi there"));
    assert_eq!(split_first_word("word"), ("word", ""));
    assert_eq!(split_first_word("   "), ("", ""));
}

#[test]
fn send_sms_builds_compressed_payload_with_report() {
    let c = send_sms(&dtn("a"), &dtn("b"), 5000, "  hi  ");
    match c {
        WsCommand::SendData(o) => {
            assert!(o.delivery_notification);
            assert_eq!(o.lifetime_ms, 5000);
            assert_eq!(o.dst.format(), "dtn://b/sms");
            assert_eq!(decoded(&o.data), (true, "hi".to_string()));
        }
        _ => panic!("payload expected"),
    }
}

fn names(v: &[&str]) -> Vec<String> {
    v.iter().map(|s| s.to_string()).collect()
}

#[test]
fn completion_of_commands_and_peers() {
    let commands = names(&["/query", "/msg", "/list", "/leave"]);
    let peers = names(&["node1", "node2", "other"]);
    let vars = names(&["bell-style", "blink-matching-paren"]);
    assert_eq!(complete("", "/l", &commands, &peers, &vars), Some(names(&["/list", "/leave"])));
    assert_eq!(complete("  /msg ", "no", &commands, &peers, &vars), Some(names(&["node1", "node2"])));
    assert_eq!(complete("/query ", "", &commands, &peers, &vars), Some(peers.clone()));
    assert_eq!(complete("/msg node1 ", "x", &commands, &peers, &vars), None);
    assert_eq!(complete("/list ", "x", &commands, &peers, &vars), None);
    assert_eq!(complete("/set ", "bl", &commands, &peers, &vars), Some(names(&["blink-matching-paren"])));
    assert_eq!(complete("/get x ", "b", &commands, &peers, &vars), None);
}

#[test]
fn message_command_tracks_peer() {
    let mut s = Session::new(dtn("node1"));
    match s.message("peer3", " hey ").unwrap() {
        WsCommand::SendData(o) => {
            assert_eq!(o.dst.format(), "dtn://peer3/sms");
            assert_eq!(decoded(&o.data), (true, "hey".to_string()));
        }
        _ => panic!("payload expected"),
    }
    assert_eq!(s.peers, vec!["peer3".to_string()]);
    assert!(s.query.is_none());
    assert_eq!(s.message("0", "x").unwrap_err(), ChatError::InvalidEndpoint);
}

#[test]
fn queue_drains_in_enqueue_order() {
    let (tx, rx) = crossbeam_channel::unbounded::<WsCommand>();
    let producers = [tx.clone(), tx.clone(), tx];
    for i in 0..9 {
        producers[i % 3].send(WsCommand::Text(format!("/cmd {}", i))).unwrap();
    }
    drop(producers);
    let sent: Vec<String> = rx
        .iter()
        .map(|c| match frame_for(c).unwrap() {
            Frame::Text(t) => t,
            Frame::Binary(_) => panic!("text expected"),
        })
        .collect();
    let expected: Vec<String> = (0..9).map(|i| format!("/cmd {}", i)).collect();
    assert_eq!(sent, expected);
}

#[test]
fn numbers_read_as_u64_does() {
    assert_eq!(dtnchat::text::parse_u64("+12"), Some(12));
    assert_eq!(dtnchat::text::parse_u64("007"), Some(7));
    assert_eq!(dtnchat::text::parse_u64("18446744073709551615"), Some(u64::MAX));
    assert_eq!(dtnchat::text::parse_u64("18446744073709551616"), None);
    assert_eq!(dtnchat::text::parse_u64("1a"), None);
    assert_eq!(dtnchat::text::parse_u64(""), None);
    assert_eq!(dtnchat::text::parse_u64("+"), None);
    assert_eq!(dtnchat::text::parse_u64("-1"), None);
}
