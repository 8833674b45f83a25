//! The vocabulary of the signaling stream: what the relay server sends to a
//! client and what a client sends back.

use vstd::prelude::*;
use crate::payload::{
    opt_text, IceCandidate, IceCandidateView, SessionDescription, SessionDescriptionView,
};

verus! {

/// A control message from the relay server.
#[derive(Clone, Debug, PartialEq, Eq)]
pub enum ServerMessage {
    /// The server assigns this client its side of the exchange.
    Role { role: String, cid: String },
    /// How many clients are in the room.
    Peers { count: u32 },
    /// The client waits in a queue, at this position if the server says so.
    Wait { position: Option<u32> },
    /// A session starts; the initiator learns with which peer.
    Start { peer_id: Option<String> },
    /// A peer has left the room.
    PeerLeft { peer_id: String },
    /// The initiator's session description, relayed to the responder.
    Offer { from: String, sid: u64, sdp: SessionDescription },
    /// The responder's session description, relayed to the initiator.
    Answer { from: String, sid: u64, sdp: SessionDescription },
    /// A candidate of the other side.
    Candidate { from: String, sid: u64, candidate: IceCandidate },
}

/// Mathematical model of a [`ServerMessage`].
pub enum ServerMessageView {
    Role { role: Seq<char>, cid: Seq<char> },
    Peers { count: u32 },
    Wait { position: Option<u32> },
    Start { peer_id: Option<Seq<char>> },
    PeerLeft { peer_id: Seq<char> },
    Offer { from: Seq<char>, sid: u64, sdp: SessionDescriptionView },
    Answer { from: Seq<char>, sid: u64, sdp: SessionDescriptionView },
    Candidate { from: Seq<char>, sid: u64, candidate: IceCandidateView },
}

impl View for ServerMessage {
    type V = ServerMessageView;

    open spec fn view(&self) -> ServerMessageView {
        match self {
            ServerMessage::Role { role, cid } => ServerMessageView::Role { role: role@, cid: cid@ },
            ServerMessage::Peers { count } => ServerMessageView::Peers { count: *count },
            ServerMessage::Wait { position } => ServerMessageView::Wait { position: *position },
            ServerMessage::Start { peer_id } => ServerMessageView::Start {
                peer_id: opt_text(*peer_id),
            },
            ServerMessage::PeerLeft { peer_id } => ServerMessageView::PeerLeft {
                peer_id: peer_id@,
            },
            ServerMessage::Offer { from, sid, sdp } => ServerMessageView::Offer {
                from: from@,
                sid: *sid,
                sdp: sdp@,
            },
            ServerMessage::Answer { from, sid, sdp } => ServerMessageView::Answer {
                from: from@,
                sid: *sid,
                sdp: sdp@,
            },
            ServerMessage::Candidate { from, sid, candidate } => ServerMessageView::Candidate {
                from: from@,
                sid: *sid,
                candidate: candidate@,
            },
        }
    }
}

/// A control message from a client to the relay server.
#[derive(Clone, Debug, PartialEq, Eq)]
pub enum ClientMessage {
    Offer { to: String, sid: u64, sdp: SessionDescription },
    Answer { to: String, sid: u64, sdp: SessionDescription },
    Candidate { to: String, sid: u64, candidate: IceCandidate },
    /// The file has been sent completely to this peer.
    TransferDone { peer_id: String },
}

/// Mathematical model of a [`ClientMessage`].
pub enum ClientMessageView {
    Offer { to: Seq<char>, sid: u64, sdp: SessionDescriptionView },
    Answer { to: Seq<char>, sid: u64, sdp: SessionDescriptionView },
    Candidate { to: Seq<char>, sid: u64, candidate: IceCandidateView },
    TransferDone { peer_id: Seq<char> },
}

impl View for ClientMessage {
    type V = ClientMessageView;

    open spec fn view(&self) -> ClientMessageView {
        match self {
            ClientMessage::Offer { to, sid, sdp } => ClientMessageView::Offer {
                to: to@,
                sid: *sid,
                sdp: sdp@,
            },
            ClientMessage::Answer { to, sid, sdp } => ClientMessageView::Answer {
                to: to@,
                sid: *sid,
                sdp: sdp@,
            },
            ClientMessage::Candidate { to, sid, candidate } => ClientMessageView::Candidate {
                to: to@,
                sid: *sid,
                candidate: candidate@,
            },
            ClientMessage::TransferDone { peer_id } => ClientMessageView::TransferDone {
                peer_id: peer_id@,
            },
        }
    }
}

/// The role name under which the sending side is known to the server.
pub open spec fn initiator_role() -> Seq<char> {
    "initiator"@
}

/// The role name under which the receiving side is known to the server.
pub open spec fn responder_role() -> Seq<char> {
    "responder"@
}

/// A condition that ends the run of a client.
#[derive(Clone, Debug, PartialEq, Eq)]
pub enum SessionError {
    /// The server assigned a role that contradicts the command in use.
    RoleMismatch { assigned: String },
    /// An offer arrived before any session was started.
    NotInitialized,
}

/// Mathematical model of a [`SessionError`].
pub enum SessionErrorView {
    RoleMismatch { assigned: Seq<char> },
    NotInitialized,
}

impl View for SessionError {
    type V = SessionErrorView;

    open spec fn view(&self) -> SessionErrorView {
        match self {
            SessionError::RoleMismatch { assigned } => SessionErrorView::RoleMismatch {
                assigned: assigned@,
            },
            SessionError::NotInitialized => SessionErrorView::NotInitialized,
        }
    }
}

} // verus!
