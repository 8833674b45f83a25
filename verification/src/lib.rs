//! Signaling and transfer core of a peer-to-peer file sharing client.
//!
//! Two participants meet in a room on a relay server, negotiate a direct
//! transport by exchanging session descriptions and connectivity
//! candidates, and then stream one file over a data channel. This crate
//! holds the decisions of that exchange: the message vocabulary, the
//! candidate buffer, the per-peer state machines of both sides and the
//! framing of the file on the channel. Sockets, files and the transport
//! itself stay with the caller, which feeds events in and carries the
//! returned actions out.
//!
//! - [`signal`], [`payload`]: the messages of the signaling stream;
//!   [`codec`] reads and writes them as JSON text.
//! - [`candidates`]: the candidate buffer; [`candidate_laws`] what holds of
//!   it over whole runs.
//! - [`initiator`], with [`offerer`] and [`peers`]: the sending side;
//!   [`responder`]: the receiving side. Their laws are in
//!   [`initiator_laws`] and [`responder_laws`].
//! - [`transfer`], [`receive`]: the framing of a file on the data channel
//!   and its two ends; [`data_codec`] the frames as bytes;
//!   [`transfer_laws`] what holds from end to end.
//! - [`endpoint`], [`file_info`]: the addresses of the service and the
//!   description of the file to send.
//! - [`json`], [`url_specs`], [`text`]: what is taken from `serde_json`,
//!   `url` and the standard library, and on which terms.

pub mod text;
pub mod payload;
pub mod json;
pub mod candidates;
pub mod candidate_laws;
pub mod signal;
pub mod codec;
pub mod responder;
pub mod responder_laws;
pub mod offerer;
pub mod peers;
pub mod initiator;
pub mod initiator_laws;
pub mod url_specs;
pub mod endpoint;
pub mod transfer;
pub mod file_info;
pub mod receive;
pub mod data_codec;
pub mod transfer_laws;
