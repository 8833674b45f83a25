//! The data channel on the wire: textual frames hold a JSON object,
//! `{"type":"meta",name,size,mime,encrypted}` or `{"type":"done"}`; binary
//! frames hold file contents as they are.

use vstd::prelude::*;
use vstd::utf8::{decode_utf8, valid_utf8};
use crate::json::{
    field_bool, field_str, field_u64, get_bool, get_str, get_u64, json_parse, json_quoted, parse_json,
    quote,
};
use crate::receive::{action_view, ReceiveAction, ReceiveEvent, ReceiveEventView, ReceiveProgress};
use crate::text::{decimal, decimal_text, text_is};
use crate::transfer::{DataMessage, DataMessageView, Frame, FrameView};

verus! {

/// The control message that a JSON value holds, told by its `type` member.
pub open spec fn data_message_of(v: serde_json::Value) -> Option<DataMessageView> {
    match field_str(v, "type"@) {
        None => None,
        Some(tag) => if tag == "meta"@ {
            match (
                field_str(v, "name"@),
                field_u64(v, "size"@),
                field_str(v, "mime"@),
                field_bool(v, "encrypted"@),
            ) {
                (Some(name), Some(size), Some(mime), Some(encrypted)) => Some(
                    DataMessageView::Meta { name, size, mime, encrypted },
                ),
                _ => None,
            }
        } else if tag == "done"@ {
            Some(DataMessageView::Done)
        } else {
            None
        },
    }
}

/// The control message that a text holds: nothing where the text is no
/// JSON document or the document is no control message.
pub open spec fn decoded_data_message(text: Seq<char>) -> Option<DataMessageView> {
    match json_parse(text) {
        Some(v) => data_message_of(v),
        None => None,
    }
}

/// The frame that a message of the data channel holds. A textual message
/// holds one only if its bytes are UTF-8 and decode to a control message.
pub open spec fn frame_of(is_string: bool, data: Seq<u8>) -> Option<FrameView> {
    if is_string {
        if valid_utf8(data) {
            match decoded_data_message(decode_utf8(data)) {
                Some(m) => Some(FrameView::Control(m)),
                None => None,
            }
        } else {
            None
        }
    } else {
        Some(FrameView::Binary(data))
    }
}

/// The text of a control message.
pub open spec fn data_message_text(m: DataMessageView) -> Seq<char> {
    match m {
        DataMessageView::Meta { name, size, mime, encrypted } => "{\"type\":\"meta\",\"name\":"@
            + json_quoted(name) + ",\"size\":"@ + decimal(size as nat) + ",\"mime\":"@
            + json_quoted(mime) + ",\"encrypted\":"@ + (if encrypted {
            "true"@
        } else {
            "false"@
        }) + "}"@,
        DataMessageView::Done => "{\"type\":\"done\"}"@,
    }
}

/// Model of an optional control message.
pub open spec fn opt_data_message(m: Option<DataMessage>) -> Option<DataMessageView> {
    match m {
        Some(x) => Some(x@),
        None => None,
    }
}

/// Model of an optional frame.
pub open spec fn opt_frame(f: Option<Frame>) -> Option<FrameView> {
    match f {
        Some(x) => Some(x@),
        None => None,
    }
}

/// Calls `String::from_utf8`. The result is the text that the bytes
/// encode, or `None` where they are not UTF-8.
#[verifier::external_body]
fn utf8_text(bytes: Vec<u8>) -> (r: Option<String>)
    ensures
        match r {
            Some(s) => valid_utf8(bytes@) && s@ == decode_utf8(bytes@),
            None => !valid_utf8(bytes@),
        },
{
    String::from_utf8(bytes).ok()
}

/// Reads a control message from a JSON value.
pub fn data_message_from(v: &serde_json::Value) -> (m: Option<DataMessage>)
    ensures
        opt_data_message(m) == data_message_of(*v),
{
    let tag = match get_str(v, "type") {
        Some(tag) => tag,
        None => return None,
    };
    if text_is(&tag, "meta") {
        let name = match get_str(v, "name") {
            Some(name) => name,
            None => return None,
        };
        let size = match get_u64(v, "size") {
            Some(size) => size,
            None => return None,
        };
        let mime = match get_str(v, "mime") {
            Some(mime) => mime,
            None => return None,
        };
        match get_bool(v, "encrypted") {
            Some(encrypted) => Some(DataMessage::Meta { name, size, mime, encrypted }),
            None => None,
        }
    } else if text_is(&tag, "done") {
        Some(DataMessage::Done)
    } else {
        None
    }
}

/// Reads a control message from the text of a frame.
pub fn decode_data_message(text: &str) -> (m: Option<DataMessage>)
    ensures
        opt_data_message(m) == decoded_data_message(text@),
{
    match parse_json(text) {
        Some(v) => data_message_from(&v),
        None => None,
    }
}

/// Writes a control message as the text of a frame.
pub fn encode_data_message(m: &DataMessage) -> (text: String)
    ensures
        text@ == data_message_text(m@),
{
    match m {
        DataMessage::Meta { name, size, mime, encrypted } => {
            let mut text = "{\"type\":\"meta\",\"name\":".to_owned();
            text.append(quote(name.as_str()).as_str());
            text.append(",\"size\":");
            text.append(decimal_text(*size).as_str());
            text.append(",\"mime\":");
            text.append(quote(mime.as_str()).as_str());
            text.append(",\"encrypted\":");
            if *encrypted {
                text.append("true");
            } else {
                text.append("false");
            }
            text.append("}");
            text
        },
        DataMessage::Done => "{\"type\":\"done\"}".to_owned(),
    }
}

/// Reads the frame that a message of the data channel holds. `is_string`
/// says whether the channel marked the message as text.
pub fn decode_frame(is_string: bool, data: Vec<u8>) -> (f: Option<Frame>)
    ensures
        opt_frame(f) == frame_of(is_string, data@),
{
    if is_string {
        match utf8_text(data) {
            Some(text) => match decode_data_message(text.as_str()) {
                Some(m) => Some(Frame::Control(m)),
                None => None,
            },
            None => None,
        }
    } else {
        Some(Frame::Binary(data))
    }
}

impl ReceiveProgress {
    /// Takes one message of the data channel. A textual message that holds
    /// no control message is ignored; every other message is handled as the
    /// frame it holds.
    pub fn on_message(&mut self, is_string: bool, data: Vec<u8>) -> (action: Option<ReceiveAction>)
        ensures
            match frame_of(is_string, data@) {
                Some(f) => (final(self)@, action_view(action)) == old(self)@.step(
                    ReceiveEventView::Frame(f),
                ),
                None => final(self)@ == old(self)@ && action is None,
            },
    {
        match decode_frame(is_string, data) {
            Some(frame) => self.handle(ReceiveEvent::Frame(frame)),
            None => None,
        }
    }
}

} // verus!
