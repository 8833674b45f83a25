//! The signaling stream on the wire: JSON objects that a `type` member
//! tells apart.
//!
//! Inbound: `role{role,cid}`, `peers{count}`, `wait{position?}`,
//! `start{peerId?}`, `peer-left{peerId}`, `offer{from,sid,sdp}`,
//! `answer{from,sid,sdp}`, `candidate{from,sid,candidate}`. Outbound:
//! `offer{to,sid,sdp}`, `answer{to,sid,sdp}`, `candidate{to,sid,candidate}`,
//! `transfer-done{peerId}`. Members that a message does not name are
//! ignored. A text that is none of the inbound messages decodes to nothing.

use vstd::prelude::*;
use crate::json::{
    field_opt_str, field_opt_u64, field_str, field_u64, get_opt_str, get_opt_u64, get_str,
    get_u64, json_member, json_parse, json_quoted, member, parse_json, quote,
};
use crate::payload::{
    opt_text, IceCandidate, IceCandidateView, SdpKind, SessionDescription, SessionDescriptionView,
};
use crate::initiator::{initiator_step, Initiator, InitiatorAction, InitiatorEvent, InitiatorEventView};
use crate::responder::{responder_step, Responder, ResponderAction, ResponderEvent, ResponderEventView};
use crate::signal::{
    ClientMessage, ClientMessageView, ServerMessage, ServerMessageView, SessionError,
    SessionErrorView,
};
use crate::text::{decimal, decimal_text, text_is};

verus! {

/// The kind that a session description names in its `type` member.
pub open spec fn sdp_kind_of(name: Seq<char>) -> Option<SdpKind> {
    if name == "offer"@ {
        Some(SdpKind::Offer)
    } else if name == "pranswer"@ {
        Some(SdpKind::Pranswer)
    } else if name == "answer"@ {
        Some(SdpKind::Answer)
    } else if name == "rollback"@ {
        Some(SdpKind::Rollback)
    } else if name == "Unspecified"@ {
        Some(SdpKind::Unspecified)
    } else {
        None
    }
}

/// The session description that an object `{type, sdp}` holds.
pub open spec fn description_of(v: serde_json::Value) -> Option<SessionDescriptionView> {
    match (field_str(v, "type"@), field_str(v, "sdp"@)) {
        (Some(name), Some(sdp)) => match sdp_kind_of(name) {
            Some(kind) => Some(SessionDescriptionView { kind, sdp }),
            None => None,
        },
        _ => None,
    }
}

/// The candidate that an object `{candidate, sdpMid?, sdpMLineIndex?,
/// usernameFragment?}` holds.
pub open spec fn candidate_of(v: serde_json::Value) -> Option<IceCandidateView> {
    match (
        field_str(v, "candidate"@),
        field_opt_str(v, "sdpMid"@),
        field_opt_u64(v, "sdpMLineIndex"@, 65535),
        field_opt_str(v, "usernameFragment"@),
    ) {
        (Some(candidate), Some(sdp_mid), Some(index), Some(username_fragment)) => Some(
            IceCandidateView {
                candidate,
                sdp_mid,
                sdp_mline_index: match index {
                    Some(n) => Some(n as u16),
                    None => None,
                },
                username_fragment,
            },
        ),
        _ => None,
    }
}

/// The session description under the member `key` of a message.
pub open spec fn field_description(v: serde_json::Value, key: Seq<char>) -> Option<
    SessionDescriptionView,
> {
    match json_member(v, key) {
        Some(m) => description_of(m),
        None => None,
    }
}

/// The candidate under the member `key` of a message.
pub open spec fn field_candidate(v: serde_json::Value, key: Seq<char>) -> Option<IceCandidateView> {
    match json_member(v, key) {
        Some(m) => candidate_of(m),
        None => None,
    }
}

/// The inbound message that a JSON value holds, told by its `type` member.
pub open spec fn server_message_of(v: serde_json::Value) -> Option<ServerMessageView> {
    match field_str(v, "type"@) {
        None => None,
        Some(tag) => if tag == "role"@ {
            match (field_str(v, "role"@), field_str(v, "cid"@)) {
                (Some(role), Some(cid)) => Some(ServerMessageView::Role { role, cid }),
                _ => None,
            }
        } else if tag == "peers"@ {
            match field_u64(v, "count"@) {
                Some(count) => if count <= u32::MAX {
                    Some(ServerMessageView::Peers { count: count as u32 })
                } else {
                    None
                },
                None => None,
            }
        } else if tag == "wait"@ {
            match field_opt_u64(v, "position"@, 0xffff_ffff) {
                Some(Some(p)) => Some(ServerMessageView::Wait { position: Some(p as u32) }),
                Some(None) => Some(ServerMessageView::Wait { position: None }),
                None => None,
            }
        } else if tag == "start"@ {
            match field_opt_str(v, "peerId"@) {
                Some(peer_id) => Some(ServerMessageView::Start { peer_id }),
                None => None,
            }
        } else if tag == "peer-left"@ {
            match field_str(v, "peerId"@) {
                Some(peer_id) => Some(ServerMessageView::PeerLeft { peer_id }),
                None => None,
            }
        } else if tag == "offer"@ {
            match (field_str(v, "from"@), field_u64(v, "sid"@), field_description(v, "sdp"@)) {
                (Some(from), Some(sid), Some(sdp)) => Some(
                    ServerMessageView::Offer { from, sid, sdp },
                ),
                _ => None,
            }
        } else if tag == "answer"@ {
            match (field_str(v, "from"@), field_u64(v, "sid"@), field_description(v, "sdp"@)) {
                (Some(from), Some(sid), Some(sdp)) => Some(
                    ServerMessageView::Answer { from, sid, sdp },
                ),
                _ => None,
            }
        } else if tag == "candidate"@ {
            match (
                field_str(v, "from"@),
                field_u64(v, "sid"@),
                field_candidate(v, "candidate"@),
            ) {
                (Some(from), Some(sid), Some(candidate)) => Some(
                    ServerMessageView::Candidate { from, sid, candidate },
                ),
                _ => None,
            }
        } else {
            None
        },
    }
}

/// The inbound message that a text holds: nothing where the text is no
/// JSON document or the document is none of the inbound messages.
pub open spec fn decoded_server_message(text: Seq<char>) -> Option<ServerMessageView> {
    match json_parse(text) {
        Some(v) => server_message_of(v),
        None => None,
    }
}

/// Model of an optional session description.
pub open spec fn opt_description(d: Option<SessionDescription>) -> Option<SessionDescriptionView> {
    match d {
        Some(x) => Some(x@),
        None => None,
    }
}

/// Model of an optional candidate.
pub open spec fn opt_candidate(c: Option<IceCandidate>) -> Option<IceCandidateView> {
    match c {
        Some(x) => Some(x@),
        None => None,
    }
}

/// Model of an optional inbound message.
pub open spec fn opt_server_message(m: Option<ServerMessage>) -> Option<ServerMessageView> {
    match m {
        Some(x) => Some(x@),
        None => None,
    }
}

/// Reads the kind of a session description from its name.
pub fn sdp_kind_from(name: &String) -> (kind: Option<SdpKind>)
    ensures
        kind == sdp_kind_of(name@),
{
    if text_is(name, "offer") {
        Some(SdpKind::Offer)
    } else if text_is(name, "pranswer") {
        Some(SdpKind::Pranswer)
    } else if text_is(name, "answer") {
        Some(SdpKind::Answer)
    } else if text_is(name, "rollback") {
        Some(SdpKind::Rollback)
    } else if text_is(name, "Unspecified") {
        Some(SdpKind::Unspecified)
    } else {
        None
    }
}

/// Reads a session description from a JSON value.
pub fn description_from(v: &serde_json::Value) -> (d: Option<SessionDescription>)
    ensures
        opt_description(d) == description_of(*v),
{
    let name = match get_str(v, "type") {
        Some(name) => name,
        None => return None,
    };
    let sdp = match get_str(v, "sdp") {
        Some(sdp) => sdp,
        None => return None,
    };
    match sdp_kind_from(&name) {
        Some(kind) => Some(SessionDescription { kind, sdp }),
        None => None,
    }
}

/// Reads a candidate from a JSON value.
pub fn candidate_from(v: &serde_json::Value) -> (c: Option<IceCandidate>)
    ensures
        opt_candidate(c) == candidate_of(*v),
{
    let candidate = match get_str(v, "candidate") {
        Some(candidate) => candidate,
        None => return None,
    };
    let sdp_mid = match get_opt_str(v, "sdpMid") {
        Some(sdp_mid) => sdp_mid,
        None => return None,
    };
    let index = match get_opt_u64(v, "sdpMLineIndex", 65535) {
        Some(index) => index,
        None => return None,
    };
    let username_fragment = match get_opt_str(v, "usernameFragment") {
        Some(username_fragment) => username_fragment,
        None => return None,
    };
    let sdp_mline_index = match index {
        Some(n) => Some(n as u16),
        None => None,
    };
    Some(IceCandidate { candidate, sdp_mid, sdp_mline_index, username_fragment })
}

/// Reads the session description under a member of a message.
fn get_description(v: &serde_json::Value, key: &str) -> (d: Option<SessionDescription>)
    ensures
        opt_description(d) == field_description(*v, key@),
{
    match member(v, key) {
        Some(m) => description_from(m),
        None => None,
    }
}

/// Reads the candidate under a member of a message.
fn get_candidate(v: &serde_json::Value, key: &str) -> (c: Option<IceCandidate>)
    ensures
        opt_candidate(c) == field_candidate(*v, key@),
{
    match member(v, key) {
        Some(m) => candidate_from(m),
        None => None,
    }
}

/// Reads the sender and the session id that an offer, an answer and a
/// candidate have in common.
fn get_origin(v: &serde_json::Value) -> (r: Option<(String, u64)>)
    ensures
        match (field_str(*v, "from"@), field_u64(*v, "sid"@)) {
            (Some(from), Some(sid)) => r matches Some(o) && o.0@ == from && o.1 == sid,
            _ => r is None,
        },
{
    let from = match get_str(v, "from") {
        Some(from) => from,
        None => return None,
    };
    match get_u64(v, "sid") {
        Some(sid) => Some((from, sid)),
        None => None,
    }
}

/// Reads an inbound message from a JSON value.
pub fn server_message_from(v: &serde_json::Value) -> (m: Option<ServerMessage>)
    ensures
        opt_server_message(m) == server_message_of(*v),
{
    let tag = match get_str(v, "type") {
        Some(tag) => tag,
        None => return None,
    };
    if text_is(&tag, "role") {
        let role = match get_str(v, "role") {
            Some(role) => role,
            None => return None,
        };
        match get_str(v, "cid") {
            Some(cid) => Some(ServerMessage::Role { role, cid }),
            None => None,
        }
    } else if text_is(&tag, "peers") {
        match get_u64(v, "count") {
            Some(count) => if count <= 0xffff_ffff {
                Some(ServerMessage::Peers { count: count as u32 })
            } else {
                None
            },
            None => None,
        }
    } else if text_is(&tag, "wait") {
        match get_opt_u64(v, "position", 0xffff_ffff) {
            Some(Some(p)) => Some(ServerMessage::Wait { position: Some(p as u32) }),
            Some(None) => Some(ServerMessage::Wait { position: None }),
            None => None,
        }
    } else if text_is(&tag, "start") {
        match get_opt_str(v, "peerId") {
            Some(peer_id) => Some(ServerMessage::Start { peer_id }),
            None => None,
        }
    } else if text_is(&tag, "peer-left") {
        match get_str(v, "peerId") {
            Some(peer_id) => Some(ServerMessage::PeerLeft { peer_id }),
            None => None,
        }
    } else if text_is(&tag, "offer") {
        let sdp = get_description(v, "sdp");
        match (get_origin(v), sdp) {
            (Some((from, sid)), Some(sdp)) => Some(ServerMessage::Offer { from, sid, sdp }),
            _ => None,
        }
    } else if text_is(&tag, "answer") {
        let sdp = get_description(v, "sdp");
        match (get_origin(v), sdp) {
            (Some((from, sid)), Some(sdp)) => Some(ServerMessage::Answer { from, sid, sdp }),
            _ => None,
        }
    } else if text_is(&tag, "candidate") {
        let candidate = get_candidate(v, "candidate");
        match (get_origin(v), candidate) {
            (Some((from, sid)), Some(candidate)) => Some(
                ServerMessage::Candidate { from, sid, candidate },
            ),
            _ => None,
        }
    } else {
        None
    }
}

/// Reads an inbound message from the text of a signaling frame. A text
/// that does not parse, or parses to none of the inbound messages, gives
/// `None`: such a frame is to be skipped, and the stream goes on.
pub fn decode_server_message(text: &str) -> (m: Option<ServerMessage>)
    ensures
        opt_server_message(m) == decoded_server_message(text@),
{
    match parse_json(text) {
        Some(v) => server_message_from(&v),
        None => None,
    }
}

/// The name under which a kind of session description travels.
pub open spec fn sdp_kind_name(kind: SdpKind) -> Seq<char> {
    match kind {
        SdpKind::Unspecified => "Unspecified"@,
        SdpKind::Offer => "offer"@,
        SdpKind::Pranswer => "pranswer"@,
        SdpKind::Answer => "answer"@,
        SdpKind::Rollback => "rollback"@,
    }
}

/// A string as a JSON literal where there is one, `null` where there is none.
pub open spec fn quoted_or_null(s: Option<Seq<char>>) -> Seq<char> {
    match s {
        Some(t) => json_quoted(t),
        None => "null"@,
    }
}

/// The JSON object of a session description.
pub open spec fn description_text(d: SessionDescriptionView) -> Seq<char> {
    "{\"type\":"@ + json_quoted(sdp_kind_name(d.kind)) + ",\"sdp\":"@ + json_quoted(d.sdp) + "}"@
}

/// The JSON object of a candidate.
pub open spec fn candidate_text(c: IceCandidateView) -> Seq<char> {
    "{\"candidate\":"@ + json_quoted(c.candidate) + ",\"sdpMid\":"@ + quoted_or_null(c.sdp_mid)
        + ",\"sdpMLineIndex\":"@ + (match c.sdp_mline_index {
        Some(n) => decimal(n as nat),
        None => "null"@,
    }) + ",\"usernameFragment\":"@ + quoted_or_null(c.username_fragment) + "}"@
}

/// The text of an outbound message.
pub open spec fn client_message_text(m: ClientMessageView) -> Seq<char> {
    match m {
        ClientMessageView::Offer { to, sid, sdp } => "{\"type\":\"offer\",\"to\":"@ + json_quoted(to)
            + ",\"sid\":"@ + decimal(sid as nat) + ",\"sdp\":"@ + description_text(sdp) + "}"@,
        ClientMessageView::Answer { to, sid, sdp } => "{\"type\":\"answer\",\"to\":"@ + json_quoted(
            to,
        ) + ",\"sid\":"@ + decimal(sid as nat) + ",\"sdp\":"@ + description_text(sdp) + "}"@,
        ClientMessageView::Candidate { to, sid, candidate } => "{\"type\":\"candidate\",\"to\":"@
            + json_quoted(to) + ",\"sid\":"@ + decimal(sid as nat) + ",\"candidate\":"@
            + candidate_text(candidate) + "}"@,
        ClientMessageView::TransferDone { peer_id } => "{\"type\":\"transfer-done\",\"peerId\":"@
            + json_quoted(peer_id) + "}"@,
    }
}

/// The name under which a kind of session description travels.
pub fn sdp_kind_text(kind: SdpKind) -> (name: &'static str)
    ensures
        name@ == sdp_kind_name(kind),
{
    match kind {
        SdpKind::Unspecified => "Unspecified",
        SdpKind::Offer => "offer",
        SdpKind::Pranswer => "pranswer",
        SdpKind::Answer => "answer",
        SdpKind::Rollback => "rollback",
    }
}

/// Writes a string as a JSON literal, or `null` where there is none.
fn quote_or_null(s: &Option<String>) -> (text: String)
    ensures
        text@ == quoted_or_null(opt_text(*s)),
{
    match s {
        Some(t) => quote(t.as_str()),
        None => "null".to_owned(),
    }
}

/// Writes the JSON object of a session description.
pub fn encode_description(d: &SessionDescription) -> (text: String)
    ensures
        text@ == description_text(d@),
{
    let mut text = "{\"type\":".to_owned();
    text.append(quote(sdp_kind_text(d.kind)).as_str());
    text.append(",\"sdp\":");
    text.append(quote(d.sdp.as_str()).as_str());
    text.append("}");
    text
}

/// Writes the JSON object of a candidate.
pub fn encode_candidate(c: &IceCandidate) -> (text: String)
    ensures
        text@ == candidate_text(c@),
{
    let mut text = "{\"candidate\":".to_owned();
    text.append(quote(c.candidate.as_str()).as_str());
    text.append(",\"sdpMid\":");
    text.append(quote_or_null(&c.sdp_mid).as_str());
    text.append(",\"sdpMLineIndex\":");
    match c.sdp_mline_index {
        Some(n) => {
            text.append(decimal_text(n as u64).as_str());
        },
        None => {
            text.append("null");
        },
    }
    text.append(",\"usernameFragment\":");
    text.append(quote_or_null(&c.username_fragment).as_str());
    text.append("}");
    text
}

/// Writes the head that an offer, an answer and a candidate have in
/// common, up to the payload.
fn encode_head(open: &str, to: &String, sid: u64, payload: &str) -> (text: String)
    ensures
        text@ == open@ + json_quoted(to@) + ",\"sid\":"@ + decimal(sid as nat) + payload@,
{
    let mut text = open.to_owned();
    text.append(quote(to.as_str()).as_str());
    text.append(",\"sid\":");
    text.append(decimal_text(sid).as_str());
    text.append(payload);
    text
}

/// Writes an outbound message as the text of a signaling frame.
pub fn encode_client_message(m: &ClientMessage) -> (text: String)
    ensures
        text@ == client_message_text(m@),
{
    match m {
        ClientMessage::Offer { to, sid, sdp } => {
            let mut text = encode_head("{\"type\":\"offer\",\"to\":", to, *sid, ",\"sdp\":");
            text.append(encode_description(sdp).as_str());
            text.append("}");
            text
        },
        ClientMessage::Answer { to, sid, sdp } => {
            let mut text = encode_head("{\"type\":\"answer\",\"to\":", to, *sid, ",\"sdp\":");
            text.append(encode_description(sdp).as_str());
            text.append("}");
            text
        },
        ClientMessage::Candidate { to, sid, candidate } => {
            let mut text = encode_head(
                "{\"type\":\"candidate\",\"to\":",
                to,
                *sid,
                ",\"candidate\":",
            );
            text.append(encode_candidate(candidate).as_str());
            text.append("}");
            text
        },
        ClientMessage::TransferDone { peer_id } => {
            let mut text = "{\"type\":\"transfer-done\",\"peerId\":".to_owned();
            text.append(quote(peer_id.as_str()).as_str());
            text.append("}");
            text
        },
    }
}

impl Initiator {
    /// Takes the text of one frame of the signaling stream. A frame that
    /// holds no inbound message is skipped: nothing changes, nothing is
    /// asked of the caller, and the stream goes on. Every other frame is
    /// handled as the message it holds.
    pub fn on_signal_text(&mut self, text: &str) -> (r: Result<Vec<InitiatorAction>, SessionError>)
        ensures
            match decoded_server_message(text@) {
                Some(m) => (final(self)@, crate::initiator::outcome_view(r)) == initiator_step(
                    old(self)@,
                    InitiatorEventView::Signal(m),
                ),
                None => final(self)@ == old(self)@ && crate::initiator::outcome_view(r) == Ok::<
                    _,
                    SessionErrorView,
                >(crate::initiator::nothing()),
            },
    {
        match decode_server_message(text) {
            Some(m) => self.handle(InitiatorEvent::Signal(m)),
            None => {
                let none: Vec<InitiatorAction> = Vec::new();
                assert(crate::initiator::actions_view(none@) =~= crate::initiator::nothing());
                Ok(none)
            },
        }
    }
}

impl Responder {
    /// Takes the text of one frame of the signaling stream. A frame that
    /// holds no inbound message is skipped: nothing changes, nothing is
    /// asked of the caller, and the stream goes on. Every other frame is
    /// handled as the message it holds.
    pub fn on_signal_text(&mut self, text: &str) -> (r: Result<Vec<ResponderAction>, SessionError>)
        ensures
            match decoded_server_message(text@) {
                Some(m) => (final(self)@, crate::responder::outcome_view(r)) == responder_step(
                    old(self)@,
                    ResponderEventView::Signal(m),
                ),
                None => final(self)@ == old(self)@ && crate::responder::outcome_view(r) == Ok::<
                    _,
                    SessionErrorView,
                >(Seq::<crate::responder::ResponderActionView>::empty()),
            },
    {
        match decode_server_message(text) {
            Some(m) => self.handle(ResponderEvent::Signal(m)),
            None => {
                let none: Vec<ResponderAction> = Vec::new();
                assert(crate::responder::actions_view(none@) =~= Seq::empty());
                Ok(none)
            },
        }
    }
}

} // verus!
