//! The envelope: the unit exchanged over the gateway connection, read from
//! the JSON text of one frame.

use crate::frame::FrameError;
use crate::json::{
    find_member, is_null, json_is_null, json_object_members, json_value, member_text,
    member_views, parse_json, parse_object, value_view, Json, JsonView, Member,
};
use crate::text::text_of;
use vstd::prelude::*;

verus! {

/// Inbound: an event dispatch, with its tag and sequence number.
pub const OP_DISPATCH: u8 = 0;

/// Either way: a heartbeat, or the server's request for one.
pub const OP_HEARTBEAT: u8 = 1;

/// Outbound: credentials and client identity.
pub const OP_IDENTIFY: u8 = 2;

/// Outbound: resumption of an earlier session. Never sent.
pub const OP_RESUME: u8 = 6;

/// Inbound: the server asks the client to reconnect.
pub const OP_RECONNECT: u8 = 7;

/// Inbound: the session is no longer valid.
pub const OP_INVALID_SESSION: u8 = 9;

/// Inbound: the first frame of a connection; carries the heartbeat cadence.
pub const OP_HELLO: u8 = 10;

/// Inbound: the server has seen the last heartbeat.
pub const OP_HEARTBEAT_ACK: u8 = 11;

/// One envelope as it stands on the wire. The body `d` is kept as compact
/// JSON text: nothing here reads it but the hello's cadence.
#[derive(Clone, Debug, PartialEq, Eq)]
pub struct GatewayPayload {
    /// The operation code.
    pub op: u8,
    /// The body, where there is one.
    pub d: Option<String>,
    /// The sequence number, where the envelope carries one.
    pub s: Option<u64>,
    /// The event-type tag; dispatch envelopes carry one.
    pub t: Option<String>,
}

/// What an envelope holds.
pub struct GatewayPayloadView {
    pub op: u8,
    pub d: Option<Seq<char>>,
    pub s: Option<u64>,
    pub t: Option<Seq<char>>,
}

impl View for GatewayPayload {
    type V = GatewayPayloadView;

    open spec fn view(&self) -> GatewayPayloadView {
        GatewayPayloadView { op: self.op, d: text_of(self.d), s: self.s, t: text_of(self.t) }
    }
}

/// A member that is there and is not `null`.
pub open spec fn present(member: Option<Seq<char>>) -> Option<Seq<char>> {
    match member {
        Some(text) => if json_is_null(text) {
            None
        } else {
            Some(text)
        },
        None => None,
    }
}

/// The value of the member called `key`, if there is one.
pub open spec fn member_value(members: Seq<(Seq<char>, Seq<char>)>, key: Seq<char>) -> Option<
    JsonView,
> {
    match member_text(members, key) {
        Some(text) => json_value(text),
        None => None,
    }
}

/// The operation code: an unsigned number that fits in a byte. Anything
/// else, or nothing, is no operation code.
pub open spec fn opcode_of(value: Option<JsonView>) -> Option<u8> {
    match value {
        Some(JsonView::Number(Some(n))) => if n <= 255 {
            Some(n as u8)
        } else {
            None
        },
        _ => None,
    }
}

/// The sequence number: none where the member is missing or `null`, the
/// number where it is an unsigned one, and an error for anything else.
pub open spec fn sequence_of(value: Option<JsonView>) -> Result<Option<u64>, FrameError> {
    match value {
        None => Ok(None),
        Some(JsonView::Null) => Ok(None),
        Some(JsonView::Number(Some(n))) => Ok(Some(n)),
        _ => Err(FrameError::Malformed),
    }
}

/// The event-type tag: none where the member is missing or `null`, the text
/// where it is a string, and an error for anything else.
pub open spec fn tag_of(value: Option<JsonView>) -> Result<Option<Seq<char>>, FrameError> {
    match value {
        None => Ok(None),
        Some(JsonView::Null) => Ok(None),
        Some(JsonView::Text(tag)) => Ok(Some(tag)),
        _ => Err(FrameError::Malformed),
    }
}

/// The envelope that four members make up: `op`, `s` and `t` by their
/// values, `d` by its text where it is there and not `null`. Without an
/// operation code, or with a sequence number or a tag of the wrong shape,
/// there is no envelope.
pub open spec fn payload_from(
    op: Option<JsonView>,
    d: Option<Seq<char>>,
    s: Option<JsonView>,
    t: Option<JsonView>,
) -> Result<GatewayPayloadView, FrameError> {
    match (opcode_of(op), sequence_of(s), tag_of(t)) {
        (Some(op), Ok(s), Ok(t)) => Ok(GatewayPayloadView { op, d, s, t }),
        _ => Err(FrameError::Malformed),
    }
}

/// The envelope that the members of a JSON object make up. Members of other
/// names than the four are passed over.
pub open spec fn payload_of_members(members: Seq<(Seq<char>, Seq<char>)>) -> Result<
    GatewayPayloadView,
    FrameError,
> {
    payload_from(
        member_value(members, "op"@),
        present(member_text(members, "d"@)),
        member_value(members, "s"@),
        member_value(members, "t"@),
    )
}

/// The envelope that a frame's text spells, or `Malformed`.
pub open spec fn payload_of_text(text: Seq<char>) -> Result<GatewayPayloadView, FrameError> {
    match json_object_members(text) {
        Some(members) => payload_of_members(members),
        None => Err(FrameError::Malformed),
    }
}

/// What a parse hands back, with the envelope taken by its view.
pub open spec fn payload_result_view(result: Result<GatewayPayload, FrameError>) -> Result<
    GatewayPayloadView,
    FrameError,
> {
    match result {
        Ok(payload) => Ok(payload@),
        Err(error) => Err(error),
    }
}

/// Narrows the value of `op` to an operation code.
pub fn narrow_opcode(value: &Option<Json>) -> (op: Option<u8>)
    ensures
        op == opcode_of(value_view(*value)),
{
    match value {
        Some(Json::Number(Some(n))) => if *n <= 255 {
            Some(*n as u8)
        } else {
            None
        },
        _ => None,
    }
}

/// Puts an envelope together from the values of its members: `op`, `s` and
/// `t` as they parsed, `d` as its text where it is there and not `null`.
pub fn assemble_payload(op: Option<Json>, d: Option<String>, s: Option<Json>, t: Option<Json>) -> (payload:
    Result<GatewayPayload, FrameError>)
    ensures
        payload_result_view(payload) == payload_from(
            value_view(op),
            text_of(d),
            value_view(s),
            value_view(t),
        ),
{
    let op = match narrow_opcode(&op) {
        Some(op) => op,
        None => {
            return Err(FrameError::Malformed);
        },
    };
    let s = match s {
        None => None,
        Some(Json::Null) => None,
        Some(Json::Number(Some(n))) => Some(n),
        _ => {
            return Err(FrameError::Malformed);
        },
    };
    let t = match t {
        None => None,
        Some(Json::Null) => None,
        Some(Json::Text(tag)) => Some(tag),
        _ => {
            return Err(FrameError::Malformed);
        },
    };
    Ok(GatewayPayload { op, d, s, t })
}

/// Looks up a member and parses its value.
fn find_value(members: &Vec<Member>, key: &str) -> (value: Option<Json>)
    ensures
        value_view(value) == member_value(member_views(members@), key@),
{
    match find_member(members, key) {
        Some(text) => parse_json(text.as_str()),
        None => None,
    }
}

/// Looks up a member and passes over one that is `null`.
fn find_present(members: &Vec<Member>, key: &str) -> (found: Option<String>)
    ensures
        text_of(found) == present(member_text(member_views(members@), key@)),
{
    match find_member(members, key) {
        Some(text) => if is_null(text.as_str()) {
            None
        } else {
            Some(text.clone())
        },
        None => None,
    }
}

/// Reads the envelope out of the members of a parsed object.
fn payload_from_members(members: &Vec<Member>) -> (payload: Result<GatewayPayload, FrameError>)
    ensures
        payload_result_view(payload) == payload_of_members(member_views(members@)),
{
    assemble_payload(
        find_value(members, "op"),
        find_present(members, "d"),
        find_value(members, "s"),
        find_value(members, "t"),
    )
}

/// Parses the text of one frame into an envelope. Text that is no JSON
/// object, or whose `op`, `s` or `t` has the wrong shape, is `Malformed`; a
/// missing `d`, `s` or `t` is not.
pub fn parse_payload(text: &str) -> (payload: Result<GatewayPayload, FrameError>)
    ensures
        payload_result_view(payload) == payload_of_text(text@),
{
    match parse_object(text) {
        Some(members) => payload_from_members(&members),
        None => Err(FrameError::Malformed),
    }
}

} // verus!
