//! The text of the two control envelopes that the client sends. Outbound
//! frames are never compressed. Members stand in the order of their names.

use crate::decimal::{decimal_text, u64_to_decimal};
use crate::json::{json_string_literal, quote};
use vstd::prelude::*;
use vstd::string::StringExecFns;

verus! {

/// The capabilities asked of the server: guilds, guild messages and message
/// content.
pub const INTENTS: u32 = 33281;

/// The heartbeat envelope: operation code 1, and as body the last sequence
/// number seen, or `null` while none is known.
pub open spec fn heartbeat_frame(last_sequence: Option<u64>) -> Seq<char> {
    match last_sequence {
        Some(sequence) => "{\"d\":"@ + decimal_text(sequence as nat) + ",\"op\":1}"@,
        None => "{\"d\":null,\"op\":1}"@,
    }
}

/// The identify envelope: operation code 2, and as body the capabilities, the
/// fixed client identity and the credential as a JSON string.
pub open spec fn identify_frame(token: Seq<char>) -> Seq<char> {
    "{\"d\":{\"intents\":"@ + decimal_text(INTENTS as nat)
        + ",\"properties\":{\"browser\":\"messagify\",\"device\":\"messagify\",\"os\":\"windows\"},\"token\":"@
        + json_string_literal(token) + "},\"op\":2}"@
}

/// Writes the heartbeat envelope for the sequence number known at this moment.
pub fn encode_heartbeat(last_sequence: Option<u64>) -> (frame: String)
    ensures
        frame@ == heartbeat_frame(last_sequence),
{
    match last_sequence {
        Some(sequence) => {
            let mut frame = String::from_str("{\"d\":");
            let digits = u64_to_decimal(sequence);
            frame.append(digits.as_str());
            frame.append(",\"op\":1}");
            frame
        },
        None => String::from_str("{\"d\":null,\"op\":1}"),
    }
}

/// Writes the identify envelope for `token`.
pub fn encode_identify(token: &str) -> (frame: String)
    ensures
        frame@ == identify_frame(token@),
{
    let mut frame = String::from_str("{\"d\":{\"intents\":");
    let intents = u64_to_decimal(INTENTS as u64);
    frame.append(intents.as_str());
    frame.append(
        ",\"properties\":{\"browser\":\"messagify\",\"device\":\"messagify\",\"os\":\"windows\"},\"token\":",
    );
    let literal = quote(token);
    frame.append(literal.as_str());
    frame.append("},\"op\":2}");
    frame
}

} // verus!
