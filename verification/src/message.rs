//! Envelopes sorted by what they ask of the session: a closed set of kinds,
//! with one kind for every operation code that the session has no use for.

use crate::frame::{decompress_zlib, frame_text, Frame, FrameError, FrameView};
use crate::json::{find_member, json_object_members, json_u64_value, member_text, parse_object, parse_u64};
use crate::payload::{
    parse_payload, payload_of_text, GatewayPayload, GatewayPayloadView, OP_DISPATCH,
    OP_HEARTBEAT, OP_HEARTBEAT_ACK, OP_HELLO, OP_INVALID_SESSION, OP_RECONNECT,
};
use crate::text::text_of;
use vstd::prelude::*;

verus! {

/// What an inbound envelope asks of the session.
#[derive(Clone, Debug, PartialEq, Eq)]
pub enum MessageKind {
    /// An application event, with its tag and its body.
    Dispatch { event_type: String, data: String },
    /// The server asks for a heartbeat; the scheduler sends one in its turn.
    HeartbeatRequest,
    /// The server asks the client to reconnect.
    Reconnect,
    /// The server has dropped the session.
    InvalidSession,
    /// The server's greeting, with the cadence where it names one.
    Hello { heartbeat_interval: Option<u64> },
    /// The server has seen the last heartbeat.
    HeartbeatAck,
    /// Anything else: an operation code without a meaning here, or a dispatch
    /// that lacks its tag or its body. Never an error.
    Other { op: u8 },
}

/// An inbound envelope after sorting.
#[derive(Clone, Debug, PartialEq, Eq)]
pub struct Message {
    /// The sequence number, where the envelope carried one.
    pub sequence: Option<u64>,
    /// What the envelope asks for.
    pub kind: MessageKind,
}

/// What a kind holds.
pub enum MessageKindView {
    Dispatch { event_type: Seq<char>, data: Seq<char> },
    HeartbeatRequest,
    Reconnect,
    InvalidSession,
    Hello { heartbeat_interval: Option<u64> },
    HeartbeatAck,
    Other { op: u8 },
}

/// What a sorted envelope holds.
pub struct MessageView {
    pub sequence: Option<u64>,
    pub kind: MessageKindView,
}

impl View for MessageKind {
    type V = MessageKindView;

    open spec fn view(&self) -> MessageKindView {
        match self {
            MessageKind::Dispatch { event_type, data } => MessageKindView::Dispatch {
                event_type: event_type@,
                data: data@,
            },
            MessageKind::HeartbeatRequest => MessageKindView::HeartbeatRequest,
            MessageKind::Reconnect => MessageKindView::Reconnect,
            MessageKind::InvalidSession => MessageKindView::InvalidSession,
            MessageKind::Hello { heartbeat_interval } => MessageKindView::Hello {
                heartbeat_interval: *heartbeat_interval,
            },
            MessageKind::HeartbeatAck => MessageKindView::HeartbeatAck,
            MessageKind::Other { op } => MessageKindView::Other { op: *op },
        }
    }
}

impl View for Message {
    type V = MessageView;

    open spec fn view(&self) -> MessageView {
        MessageView { sequence: self.sequence, kind: self.kind@ }
    }
}

/// The cadence that a hello's body names: its member `heartbeat_interval`,
/// where the body is an object and the member an unsigned number.
pub open spec fn hello_interval(body: Option<Seq<char>>) -> Option<u64> {
    match body {
        Some(text) => match json_object_members(text) {
            Some(members) => match member_text(members, "heartbeat_interval"@) {
                Some(number) => json_u64_value(number),
                None => None,
            },
            None => None,
        },
        None => None,
    }
}

/// The kind of an envelope, given the cadence read from its body.
pub open spec fn kind_of(payload: GatewayPayloadView, heartbeat_interval: Option<u64>) -> MessageKindView {
    if payload.op == OP_DISPATCH {
        match (payload.t, payload.d) {
            (Some(event_type), Some(data)) => MessageKindView::Dispatch { event_type, data },
            _ => MessageKindView::Other { op: payload.op },
        }
    } else if payload.op == OP_HEARTBEAT {
        MessageKindView::HeartbeatRequest
    } else if payload.op == OP_RECONNECT {
        MessageKindView::Reconnect
    } else if payload.op == OP_INVALID_SESSION {
        MessageKindView::InvalidSession
    } else if payload.op == OP_HELLO {
        MessageKindView::Hello { heartbeat_interval }
    } else if payload.op == OP_HEARTBEAT_ACK {
        MessageKindView::HeartbeatAck
    } else {
        MessageKindView::Other { op: payload.op }
    }
}

/// An envelope sorted, given the cadence read from its body.
pub open spec fn message_from_parts(payload: GatewayPayloadView, heartbeat_interval: Option<u64>) -> MessageView {
    MessageView { sequence: payload.s, kind: kind_of(payload, heartbeat_interval) }
}

/// An envelope sorted.
pub open spec fn message_of(payload: GatewayPayloadView) -> MessageView {
    message_from_parts(payload, hello_interval(payload.d))
}

/// The sorted envelope that a frame decodes to, or why the frame is dropped.
pub open spec fn decoded(frame: FrameView) -> Result<MessageView, FrameError> {
    match frame_text(frame) {
        Ok(text) => decoded_text(text),
        Err(error) => Err(error),
    }
}

/// The sorted envelope that a frame's text decodes to, or `Malformed`.
pub open spec fn decoded_text(text: Seq<char>) -> Result<MessageView, FrameError> {
    match payload_of_text(text) {
        Ok(payload) => Ok(message_of(payload)),
        Err(error) => Err(error),
    }
}

/// What a decoding hands back, with the message taken by its view.
pub open spec fn message_result_view(result: Result<Message, FrameError>) -> Result<
    MessageView,
    FrameError,
> {
    match result {
        Ok(message) => Ok(message@),
        Err(error) => Err(error),
    }
}

/// Sorts an envelope whose cadence has been read already. The sequence number
/// is carried over; the operation code decides the kind; a dispatch needs both
/// its tag and its body.
pub fn message_from(payload: GatewayPayload, heartbeat_interval: Option<u64>) -> (message: Message)
    ensures
        message@ == message_from_parts(payload@, heartbeat_interval),
{
    let sequence = payload.s;
    let op = payload.op;
    let kind = if op == OP_DISPATCH {
        match (payload.t, payload.d) {
            (Some(event_type), Some(data)) => MessageKind::Dispatch { event_type, data },
            _ => MessageKind::Other { op },
        }
    } else if op == OP_HEARTBEAT {
        MessageKind::HeartbeatRequest
    } else if op == OP_RECONNECT {
        MessageKind::Reconnect
    } else if op == OP_INVALID_SESSION {
        MessageKind::InvalidSession
    } else if op == OP_HELLO {
        MessageKind::Hello { heartbeat_interval }
    } else if op == OP_HEARTBEAT_ACK {
        MessageKind::HeartbeatAck
    } else {
        MessageKind::Other { op }
    };
    Message { sequence, kind }
}

/// Reads the cadence out of a hello's body. A body that is missing, is no
/// object, or names no unsigned `heartbeat_interval` yields none: the caller
/// falls back on the default.
pub fn read_heartbeat_interval(body: &Option<String>) -> (interval: Option<u64>)
    ensures
        interval == hello_interval(text_of(*body)),
{
    match body {
        Some(text) => match parse_object(text.as_str()) {
            Some(members) => match find_member(&members, "heartbeat_interval") {
                Some(number) => parse_u64(number.as_str()),
                None => None,
            },
            None => None,
        },
        None => None,
    }
}

/// Sorts an envelope by its operation code.
pub fn classify(payload: GatewayPayload) -> (message: Message)
    ensures
        message@ == message_of(payload@),
{
    let heartbeat_interval = if payload.op == OP_HELLO {
        read_heartbeat_interval(&payload.d)
    } else {
        None
    };
    message_from(payload, heartbeat_interval)
}

/// Decodes the text of one frame.
pub fn decode_text(text: &str) -> (message: Result<Message, FrameError>)
    ensures
        message_result_view(message) == decoded_text(text@),
{
    match parse_payload(text) {
        Ok(payload) => Ok(classify(payload)),
        Err(error) => Err(error),
    }
}

/// Decodes one frame. A binary frame is inflated first and then read as the
/// text frame of the same content would be.
pub fn decode_frame(frame: &Frame) -> (message: Result<Message, FrameError>)
    ensures
        message_result_view(message) == decoded(frame@),
{
    match frame {
        Frame::Text(text) => decode_text(text.as_str()),
        Frame::Binary(bytes) => match decompress_zlib(bytes.as_slice()) {
            Ok(text) => decode_text(text.as_str()),
            Err(error) => Err(error),
        },
    }
}

/// A binary frame and the text frame of what it inflates to decode alike.
pub proof fn lemma_binary_decodes_as_text(bytes: Seq<u8>, text: Seq<char>)
    requires
        crate::frame::zlib_inflated(bytes) == Some(text),
    ensures
        decoded(FrameView::Binary(bytes)) == decoded(FrameView::Text(text)),
{
}

} // verus!
