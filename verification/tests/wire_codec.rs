use share_files::codec::{
    candidate_from, decode_server_message, description_from, encode_candidate,
    encode_client_message, encode_description, sdp_kind_from, sdp_kind_text, server_message_from,
};
use share_files::data_codec::{
    data_message_from, decode_data_message, decode_frame, encode_data_message,
};
use share_files::json::{get_bool, get_opt_str, get_opt_u64, get_str, get_u64};
use share_files::payload::{IceCandidate, SdpKind, SessionDescription};
use share_files::receive::{ReceiveAction, ReceiveProgress};
use share_files::responder::{Responder, ResponderAction};
use share_files::signal::{ClientMessage, ServerMessage, SessionError};
use share_files::text::{decimal_text, text_is};
use share_files::transfer::{DataMessage, Frame};

fn value(text: &str) -> serde_json::Value {
    serde_json::from_str(text).expect("test input is JSON")
}

fn s(text: &str) -> String {
    text.to_string()
}

#[test]
fn decimal_text_writes_numbers() {
    assert_eq!(decimal_text(0), "0");
    assert_eq!(decimal_text(7), "7");
    assert_eq!(decimal_text(10), "10");
    assert_eq!(decimal_text(13), "13");
    assert_eq!(decimal_text(1234567890), "1234567890");
    assert_eq!(decimal_text(u64::MAX), "18446744073709551615");
}

#[test]
fn text_is_compares_whole_strings() {
    assert!(text_is(&s("offer"), "offer"));
    assert!(!text_is(&s("offer"), "offe"));
    assert!(!text_is(&s("Offer"), "offer"));
    assert!(text_is(&s(""), ""));
}

#[test]
fn field_readers_tell_kinds_apart() {
    let v = value(r#"{"s":"x","n":5,"b":true,"z":null,"neg":-1,"f":1.5,"o":{}}"#);
    assert_eq!(get_str(&v, "s"), Some(s("x")));
    assert_eq!(get_str(&v, "n"), None);
    assert_eq!(get_str(&v, "missing"), None);
    assert_eq!(get_u64(&v, "n"), Some(5));
    assert_eq!(get_u64(&v, "neg"), None);
    assert_eq!(get_u64(&v, "f"), None);
    assert_eq!(get_u64(&v, "s"), None);
    assert_eq!(get_bool(&v, "b"), Some(true));
    assert_eq!(get_bool(&v, "n"), None);
    assert_eq!(get_opt_str(&v, "s"), Some(Some(s("x"))));
    assert_eq!(get_opt_str(&v, "z"), Some(None));
    assert_eq!(get_opt_str(&v, "missing"), Some(None));
    assert_eq!(get_opt_str(&v, "n"), None);
    assert_eq!(get_opt_u64(&v, "n", 5), Some(Some(5)));
    assert_eq!(get_opt_u64(&v, "n", 4), None);
    assert_eq!(get_opt_u64(&v, "z", 4), Some(None));
    assert_eq!(get_opt_u64(&v, "missing", 4), Some(None));
    assert_eq!(get_opt_u64(&v, "s", 4), None);
    assert_eq!(get_str(&value("[1]"), "s"), None);
}

#[test]
fn sdp_kinds_have_their_wire_names() {
    for (kind, name) in [
        (SdpKind::Offer, "offer"),
        (SdpKind::Pranswer, "pranswer"),
        (SdpKind::Answer, "answer"),
        (SdpKind::Rollback, "rollback"),
        (SdpKind::Unspecified, "Unspecified"),
    ] {
        assert_eq!(sdp_kind_text(kind), name);
        assert_eq!(sdp_kind_from(&s(name)), Some(kind));
    }
    assert_eq!(sdp_kind_from(&s("OFFER")), None);
    assert_eq!(sdp_kind_from(&s("")), None);
}

#[test]
fn descriptions_are_read_from_objects() {
    assert_eq!(
        description_from(&value(r#"{"type":"answer","sdp":"v=0\r\n","extra":1}"#)),
        Some(SessionDescription { kind: SdpKind::Answer, sdp: s("v=0\r\n") })
    );
    assert_eq!(description_from(&value(r#"{"type":"answer"}"#)), None);
    assert_eq!(description_from(&value(r#"{"sdp":"v=0"}"#)), None);
    assert_eq!(description_from(&value(r#"{"type":"bogus","sdp":"v=0"}"#)), None);
    assert_eq!(description_from(&value(r#""offer""#)), None);
}

#[test]
fn candidates_are_read_from_objects() {
    assert_eq!(
        candidate_from(&value(
            r#"{"candidate":"candidate:1 1 udp 1 10.0.0.1 5000 typ host","sdpMid":"0","sdpMLineIndex":2,"usernameFragment":"abcd"}"#
        )),
        Some(IceCandidate {
            candidate: s("candidate:1 1 udp 1 10.0.0.1 5000 typ host"),
            sdp_mid: Some(s("0")),
            sdp_mline_index: Some(2),
            username_fragment: Some(s("abcd")),
        })
    );
    assert_eq!(
        candidate_from(&value(r#"{"candidate":"c","sdpMid":null}"#)),
        Some(IceCandidate {
            candidate: s("c"),
            sdp_mid: None,
            sdp_mline_index: None,
            username_fragment: None,
        })
    );
    assert_eq!(
        candidate_from(&value(r#"{"candidate":"c","sdpMLineIndex":65535}"#)).unwrap().sdp_mline_index,
        Some(65535)
    );
    assert_eq!(candidate_from(&value(r#"{"candidate":"c","sdpMLineIndex":65536}"#)), None);
    assert_eq!(candidate_from(&value(r#"{"candidate":"c","sdpMid":7}"#)), None);
    assert_eq!(candidate_from(&value(r#"{"sdpMid":"0"}"#)), None);
}

#[test]
fn every_inbound_message_is_decoded() {
    assert_eq!(
        decode_server_message(r#"{"type":"role","role":"initiator","cid":"c-1"}"#),
        Some(ServerMessage::Role { role: s("initiator"), cid: s("c-1") })
    );
    assert_eq!(
        decode_server_message(r#"{"type":"peers","count":3}"#),
        Some(ServerMessage::Peers { count: 3 })
    );
    assert_eq!(
        decode_server_message(r#"{"type":"wait","position":2}"#),
        Some(ServerMessage::Wait { position: Some(2) })
    );
    assert_eq!(
        decode_server_message(r#"{"type":"wait"}"#),
        Some(ServerMessage::Wait { position: None })
    );
    assert_eq!(
        decode_server_message(r#"{"type":"start","peerId":"p1"}"#),
        Some(ServerMessage::Start { peer_id: Some(s("p1")) })
    );
    assert_eq!(
        decode_server_message(r#"{"type":"start"}"#),
        Some(ServerMessage::Start { peer_id: None })
    );
    assert_eq!(
        decode_server_message(r#"{"type":"peer-left","peerId":"p1"}"#),
        Some(ServerMessage::PeerLeft { peer_id: s("p1") })
    );
    assert_eq!(
        decode_server_message(
            r#"{"type":"offer","from":"p1","sid":1,"sdp":{"type":"offer","sdp":"v=0"}}"#
        ),
        Some(ServerMessage::Offer {
            from: s("p1"),
            sid: 1,
            sdp: SessionDescription { kind: SdpKind::Offer, sdp: s("v=0") },
        })
    );
    assert_eq!(
        decode_server_message(
            r#"{"sid":18446744073709551615,"sdp":{"sdp":"v=0","type":"answer"},"from":"p2","type":"answer"}"#
        ),
        Some(ServerMessage::Answer {
            from: s("p2"),
            sid: u64::MAX,
            sdp: SessionDescription { kind: SdpKind::Answer, sdp: s("v=0") },
        })
    );
    assert_eq!(
        decode_server_message(
            r#"{"type":"candidate","from":"p1","sid":4,"candidate":{"candidate":"c","sdpMid":"","sdpMLineIndex":0,"usernameFragment":null}}"#
        ),
        Some(ServerMessage::Candidate {
            from: s("p1"),
            sid: 4,
            candidate: IceCandidate {
                candidate: s("c"),
                sdp_mid: Some(s("")),
                sdp_mline_index: Some(0),
                username_fragment: None,
            },
        })
    );
}

#[test]
fn malformed_inbound_messages_decode_to_nothing() {
    for text in [
        "",
        "hello",
        "{",
        "null",
        "[]",
        r#"{"role":"initiator"}"#,
        r#"{"type":7}"#,
        r#"{"type":"transfer-done","peerId":"p1"}"#,
        r#"{"type":"role","role":"initiator"}"#,
        r#"{"type":"role","role":1,"cid":"c"}"#,
        r#"{"type":"peers"}"#,
        r#"{"type":"peers","count":-1}"#,
        r#"{"type":"peers","count":4294967296}"#,
        r#"{"type":"peers","count":"3"}"#,
        r#"{"type":"wait","position":"first"}"#,
        r#"{"type":"wait","position":4294967296}"#,
        r#"{"type":"start","peerId":5}"#,
        r#"{"type":"peer-left"}"#,
        r#"{"type":"offer","from":"p1","sid":1}"#,
        r#"{"type":"offer","from":"p1","sid":1,"sdp":"v=0"}"#,
        r#"{"type":"offer","from":"p1","sid":1,"sdp":{"type":"offer"}}"#,
        r#"{"type":"offer","sid":1,"sdp":{"type":"offer","sdp":"v=0"}}"#,
        r#"{"type":"answer","from":"p1","sid":1.5,"sdp":{"type":"answer","sdp":"v=0"}}"#,
        r#"{"type":"candidate","from":"p1","sid":1,"candidate":"c"}"#,
        r#"{"type":"candidate","from":"p1","candidate":{"candidate":"c"}}"#,
    ] {
        assert_eq!(decode_server_message(text), None, "{text}");
    }
}

#[test]
fn peers_count_is_read_up_to_its_limit() {
    assert_eq!(
        server_message_from(&value(r#"{"type":"peers","count":4294967295}"#)),
        Some(ServerMessage::Peers { count: u32::MAX })
    );
    assert_eq!(
        server_message_from(&value(r#"{"type":"wait","position":null}"#)),
        Some(ServerMessage::Wait { position: None })
    );
}

#[test]
fn outbound_messages_are_written_field_by_field() {
    let sdp = SessionDescription { kind: SdpKind::Offer, sdp: s("v=0\r\n") };
    assert_eq!(
        encode_client_message(&ClientMessage::Offer { to: s("p1"), sid: 1, sdp: sdp.clone() }),
        r#"{"type":"offer","to":"p1","sid":1,"sdp":{"type":"offer","sdp":"v=0\r\n"}}"#
    );
    assert_eq!(
        encode_client_message(&ClientMessage::Answer {
            to: s("p\"1"),
            sid: 20,
            sdp: SessionDescription { kind: SdpKind::Answer, sdp: s("a\\b") },
        }),
        r#"{"type":"answer","to":"p\"1","sid":20,"sdp":{"type":"answer","sdp":"a\\b"}}"#
    );
    assert_eq!(
        encode_client_message(&ClientMessage::Candidate {
            to: s("p1"),
            sid: 3,
            candidate: IceCandidate {
                candidate: s("candidate:1"),
                sdp_mid: Some(s("")),
                sdp_mline_index: Some(0),
                username_fragment: None,
            },
        }),
        r#"{"type":"candidate","to":"p1","sid":3,"candidate":{"candidate":"candidate:1","sdpMid":"","sdpMLineIndex":0,"usernameFragment":null}}"#
    );
    assert_eq!(
        encode_client_message(&ClientMessage::TransferDone { peer_id: s("p1") }),
        r#"{"type":"transfer-done","peerId":"p1"}"#
    );
    assert_eq!(encode_description(&sdp), r#"{"type":"offer","sdp":"v=0\r\n"}"#);
    assert_eq!(
        encode_candidate(&IceCandidate {
            candidate: s("c"),
            sdp_mid: None,
            sdp_mline_index: None,
            username_fragment: Some(s("uf")),
        }),
        r#"{"candidate":"c","sdpMid":null,"sdpMLineIndex":null,"usernameFragment":"uf"}"#
    );
}

#[test]
fn written_payloads_read_back() {
    let sdp = SessionDescription { kind: SdpKind::Pranswer, sdp: s("line \"one\"\nline two\t\u{e9}") };
    assert_eq!(description_from(&value(&encode_description(&sdp))), Some(sdp));
    let c = IceCandidate {
        candidate: s("candidate:\\x"),
        sdp_mid: Some(s("mid")),
        sdp_mline_index: Some(65535),
        username_fragment: Some(s("u/f")),
    };
    assert_eq!(candidate_from(&value(&encode_candidate(&c))), Some(c));
}

#[test]
fn control_messages_are_decoded() {
    assert_eq!(
        decode_data_message(
            r#"{"type":"meta","name":"hello.txt","size":13,"mime":"text/plain","encrypted":false}"#
        ),
        Some(DataMessage::Meta {
            name: s("hello.txt"),
            size: 13,
            mime: s("text/plain"),
            encrypted: false,
        })
    );
    assert_eq!(decode_data_message(r#"{"type":"done"}"#), Some(DataMessage::Done));
    assert_eq!(
        data_message_from(&value(r#"{"encrypted":true,"mime":"a/b","name":"n","size":0,"type":"meta"}"#)),
        Some(DataMessage::Meta { name: s("n"), size: 0, mime: s("a/b"), encrypted: true })
    );
    for text in [
        "",
        "done",
        r#"{"type":"other"}"#,
        r#"{"type":"meta"}"#,
        r#"{"type":"meta","name":"n","size":1,"mime":"m"}"#,
        r#"{"type":"meta","name":"n","size":"1","mime":"m","encrypted":false}"#,
        r#"{"type":"meta","name":"n","size":1,"mime":"m","encrypted":"no"}"#,
        r#"{"name":"n","size":1,"mime":"m","encrypted":false}"#,
    ] {
        assert_eq!(decode_data_message(text), None, "{text}");
    }
}

#[test]
fn control_messages_are_written_field_by_field() {
    assert_eq!(
        encode_data_message(&DataMessage::Meta {
            name: s("hello.txt"),
            size: 13,
            mime: s("text/plain"),
            encrypted: false,
        }),
        r#"{"type":"meta","name":"hello.txt","size":13,"mime":"text/plain","encrypted":false}"#
    );
    assert_eq!(
        encode_data_message(&DataMessage::Meta {
            name: s("we \"quote\".txt"),
            size: 0,
            mime: s("x/y"),
            encrypted: true,
        }),
        r#"{"type":"meta","name":"we \"quote\".txt","size":0,"mime":"x/y","encrypted":true}"#
    );
    assert_eq!(encode_data_message(&DataMessage::Done), r#"{"type":"done"}"#);
}

#[test]
fn written_control_messages_read_back() {
    for m in [
        DataMessage::Done,
        DataMessage::Meta { name: s("a\nb\\c\"d"), size: u64::MAX, mime: s("m"), encrypted: false },
    ] {
        assert_eq!(decode_data_message(&encode_data_message(&m)), Some(m));
    }
}

#[test]
fn frames_are_told_apart_by_the_channel_flag() {
    assert_eq!(decode_frame(false, b"{\"type\":\"done\"}".to_vec()),
        Some(Frame::Binary(b"{\"type\":\"done\"}".to_vec())));
    assert_eq!(decode_frame(true, b"{\"type\":\"done\"}".to_vec()),
        Some(Frame::Control(DataMessage::Done)));
    assert_eq!(decode_frame(true, vec![0xff, 0xfe]), None);
    assert_eq!(decode_frame(true, b"plain text".to_vec()), None);
    assert_eq!(decode_frame(false, vec![]), Some(Frame::Binary(vec![])));
    assert_eq!(
        decode_frame(true, "{\"type\":\"meta\",\"name\":\"\u{e9}\",\"size\":1,\"mime\":\"m\",\"encrypted\":false}".as_bytes().to_vec()),
        Some(Frame::Control(DataMessage::Meta {
            name: s("\u{e9}"),
            size: 1,
            mime: s("m"),
            encrypted: false,
        }))
    );
}

#[test]
fn receiver_takes_messages_off_the_channel() {
    let mut p = ReceiveProgress::new(s("out"));
    assert_eq!(p.on_message(true, b"garbage".to_vec()), None);
    assert_eq!(p.on_message(true, vec![0xc3]), None);
    assert_eq!(
        p.on_message(
            true,
            br#"{"type":"meta","name":"f","size":2,"mime":"m","encrypted":false}"#.to_vec()
        ),
        Some(ReceiveAction::Open { dir: s("out"), name: s("f"), size: 2 })
    );
    assert_eq!(p.on_message(false, b"ab".to_vec()), None);
    p.handle(share_files::receive::ReceiveEvent::Opened { name: s("f"), size: 2 });
    assert_eq!(p.on_message(false, b"ab".to_vec()), Some(ReceiveAction::Write(b"ab".to_vec())));
    assert_eq!(p.on_message(true, b"garbage".to_vec()), None);
    assert_eq!(p.current_file(), Some(s("f")));
    assert_eq!(p.on_message(true, br#"{"type":"done"}"#.to_vec()), Some(ReceiveAction::Close));
    assert_eq!(p.current_file(), None);
}

#[test]
fn responder_skips_unparsable_frames() {
    let mut r = Responder::new();
    assert_eq!(r.on_signal_text("\u{0}"), Ok(vec![]));
    assert_eq!(r.on_signal_text("{\"type\":\"mystery\"}"), Ok(vec![]));
    assert!(!r.is_started());
    assert_eq!(r.on_signal_text("{\"type\":\"start\"}"), Ok(vec![ResponderAction::CreateSession]));
    assert_eq!(
        r.on_signal_text("{\"type\":\"role\",\"role\":\"initiator\",\"cid\":\"c\"}"),
        Err(SessionError::RoleMismatch { assigned: s("initiator") })
    );
}
