use messagify::frame::{decompress_zlib, Frame, FrameError};
use messagify::json::{find_member, Json, Member};
use messagify::message::{
    classify, decode_frame, decode_text, message_from, read_heartbeat_interval, Message,
    MessageKind,
};
use messagify::payload::{assemble_payload, narrow_opcode, parse_payload, GatewayPayload};
use std::io::Write;

fn deflate(text: &str) -> Vec<u8> {
    let mut encoder =
        flate2::write::ZlibEncoder::new(Vec::new(), flate2::Compression::default());
    encoder.write_all(text.as_bytes()).unwrap();
    encoder.finish().unwrap()
}

#[test]
fn hello_with_cadence_is_parsed() {
    let payload = parse_payload("{\"op\":10,\"d\":{\"heartbeat_interval\":30000}}").unwrap();
    assert_eq!(
        payload,
        GatewayPayload {
            op: 10,
            d: Some("{\"heartbeat_interval\":30000}".to_string()),
            s: None,
            t: None,
        }
    );
}

#[test]
fn dispatch_keeps_body_sequence_and_tag() {
    let payload = parse_payload(
        "{\"t\":\"MESSAGE_CREATE\",\"s\":7,\"op\":0,\"d\":{\"channel_id\":\"c1\"}}",
    )
    .unwrap();
    assert_eq!(payload.op, 0);
    assert_eq!(payload.s, Some(7));
    assert_eq!(payload.t.as_deref(), Some("MESSAGE_CREATE"));
    assert_eq!(payload.d.as_deref(), Some("{\"channel_id\":\"c1\"}"));
}

#[test]
fn body_is_handed_on_as_compact_json() {
    let payload = parse_payload("{ \"op\" : 0, \"d\" : [ 1 , \"a\\\"b\" , null ] }").unwrap();
    assert_eq!(payload.d.as_deref(), Some("[1,\"a\\\"b\",null]"));
}

#[test]
fn null_members_count_as_absent() {
    let payload = parse_payload("{\"op\":11,\"d\":null,\"s\":null,\"t\":null}").unwrap();
    assert_eq!(payload, GatewayPayload { op: 11, d: None, s: None, t: None });
}

#[test]
fn escaped_tag_is_resolved() {
    let payload = parse_payload("{\"op\":0,\"t\":\"A\\u0042\\n\"}").unwrap();
    assert_eq!(payload.t.as_deref(), Some("AB\n"));
}

#[test]
fn unknown_members_are_passed_over() {
    let payload = parse_payload("{\"op\":1,\"extra\":[1,2,3]}").unwrap();
    assert_eq!(payload, GatewayPayload { op: 1, d: None, s: None, t: None });
}

#[test]
fn text_that_is_not_json_is_malformed() {
    assert_eq!(parse_payload("{\"op\":"), Err(FrameError::Malformed));
    assert_eq!(parse_payload(""), Err(FrameError::Malformed));
    assert_eq!(parse_payload("{\"op\":1} trailing"), Err(FrameError::Malformed));
}

#[test]
fn json_that_is_no_object_is_malformed() {
    assert_eq!(parse_payload("[10]"), Err(FrameError::Malformed));
    assert_eq!(parse_payload("10"), Err(FrameError::Malformed));
    assert_eq!(parse_payload("null"), Err(FrameError::Malformed));
}

#[test]
fn missing_or_misshapen_opcode_is_malformed() {
    assert_eq!(parse_payload("{\"d\":{}}"), Err(FrameError::Malformed));
    assert_eq!(parse_payload("{\"op\":\"10\"}"), Err(FrameError::Malformed));
    assert_eq!(parse_payload("{\"op\":-1}"), Err(FrameError::Malformed));
    assert_eq!(parse_payload("{\"op\":1.5}"), Err(FrameError::Malformed));
    assert_eq!(parse_payload("{\"op\":null}"), Err(FrameError::Malformed));
}

#[test]
fn opcode_has_to_fit_in_a_byte() {
    assert_eq!(parse_payload("{\"op\":255}").unwrap().op, 255);
    assert_eq!(parse_payload("{\"op\":256}"), Err(FrameError::Malformed));
    assert_eq!(narrow_opcode(&Some(Json::Number(Some(0)))), Some(0));
    assert_eq!(narrow_opcode(&Some(Json::Number(Some(255)))), Some(255));
    assert_eq!(narrow_opcode(&Some(Json::Number(Some(256)))), None);
    assert_eq!(narrow_opcode(&Some(Json::Number(Some(u64::MAX)))), None);
    assert_eq!(narrow_opcode(&Some(Json::Number(None))), None);
    assert_eq!(narrow_opcode(&Some(Json::Text("10".to_string()))), None);
    assert_eq!(narrow_opcode(&Some(Json::Null)), None);
    assert_eq!(narrow_opcode(&None), None);
}

#[test]
fn envelope_is_put_together_from_its_members() {
    let op = || Some(Json::Number(Some(0)));
    assert_eq!(
        assemble_payload(
            op(),
            Some("{}".to_string()),
            Some(Json::Number(Some(7))),
            Some(Json::Text("READY".to_string()))
        ),
        Ok(GatewayPayload {
            op: 0,
            d: Some("{}".to_string()),
            s: Some(7),
            t: Some("READY".to_string())
        })
    );
    assert_eq!(
        assemble_payload(op(), None, None, None),
        Ok(GatewayPayload { op: 0, d: None, s: None, t: None })
    );
    assert_eq!(
        assemble_payload(op(), None, Some(Json::Null), Some(Json::Null)),
        Ok(GatewayPayload { op: 0, d: None, s: None, t: None })
    );
    assert_eq!(assemble_payload(None, None, None, None), Err(FrameError::Malformed));
    assert_eq!(
        assemble_payload(Some(Json::Number(Some(256))), None, None, None),
        Err(FrameError::Malformed)
    );
    assert_eq!(
        assemble_payload(op(), None, Some(Json::Number(None)), None),
        Err(FrameError::Malformed)
    );
    assert_eq!(
        assemble_payload(op(), None, Some(Json::Text("7".to_string())), None),
        Err(FrameError::Malformed)
    );
    assert_eq!(
        assemble_payload(op(), None, None, Some(Json::Bool(true))),
        Err(FrameError::Malformed)
    );
    assert_eq!(
        assemble_payload(op(), None, None, Some(Json::Array(vec![]))),
        Err(FrameError::Malformed)
    );
    assert_eq!(
        assemble_payload(op(), None, None, Some(Json::Object(vec![]))),
        Err(FrameError::Malformed)
    );
}

#[test]
fn misshapen_sequence_or_tag_is_malformed() {
    assert_eq!(parse_payload("{\"op\":0,\"s\":\"7\"}"), Err(FrameError::Malformed));
    assert_eq!(parse_payload("{\"op\":0,\"s\":-7}"), Err(FrameError::Malformed));
    assert_eq!(parse_payload("{\"op\":0,\"t\":7}"), Err(FrameError::Malformed));
}

#[test]
fn sequence_may_fill_64_bits() {
    let payload = parse_payload("{\"op\":0,\"s\":18446744073709551615}").unwrap();
    assert_eq!(payload.s, Some(u64::MAX));
    assert_eq!(
        parse_payload("{\"op\":0,\"s\":18446744073709551616}"),
        Err(FrameError::Malformed)
    );
}

#[test]
fn members_are_found_by_name() {
    let members = vec![
        Member { key: "a".to_string(), text: "1".to_string() },
        Member { key: "b".to_string(), text: "2".to_string() },
        Member { key: "a".to_string(), text: "3".to_string() },
    ];
    assert_eq!(find_member(&members, "a").map(String::as_str), Some("1"));
    assert_eq!(find_member(&members, "b").map(String::as_str), Some("2"));
    assert_eq!(find_member(&members, "c"), None);
    assert_eq!(find_member(&Vec::new(), "a"), None);
}

#[test]
fn cadence_is_read_from_the_hello_body() {
    assert_eq!(
        read_heartbeat_interval(&Some("{\"heartbeat_interval\":41250}".to_string())),
        Some(41250)
    );
    assert_eq!(read_heartbeat_interval(&Some("{}".to_string())), None);
    assert_eq!(read_heartbeat_interval(&Some("[30000]".to_string())), None);
    assert_eq!(
        read_heartbeat_interval(&Some("{\"heartbeat_interval\":\"soon\"}".to_string())),
        None
    );
    assert_eq!(
        read_heartbeat_interval(&Some("{\"heartbeat_interval\":1.5}".to_string())),
        None
    );
    assert_eq!(read_heartbeat_interval(&None), None);
}

#[test]
fn every_opcode_has_its_kind() {
    let bare = |op: u8| GatewayPayload { op, d: None, s: Some(3), t: None };
    assert_eq!(classify(bare(1)).kind, MessageKind::HeartbeatRequest);
    assert_eq!(classify(bare(7)).kind, MessageKind::Reconnect);
    assert_eq!(classify(bare(9)).kind, MessageKind::InvalidSession);
    assert_eq!(classify(bare(10)).kind, MessageKind::Hello { heartbeat_interval: None });
    assert_eq!(classify(bare(11)).kind, MessageKind::HeartbeatAck);
    assert_eq!(classify(bare(2)).kind, MessageKind::Other { op: 2 });
    assert_eq!(classify(bare(6)).kind, MessageKind::Other { op: 6 });
    assert_eq!(classify(bare(200)).kind, MessageKind::Other { op: 200 });
    assert_eq!(classify(bare(9)).sequence, Some(3));
}

#[test]
fn dispatch_needs_tag_and_body() {
    let full = GatewayPayload {
        op: 0,
        d: Some("{}".to_string()),
        s: Some(1),
        t: Some("READY".to_string()),
    };
    assert_eq!(
        classify(full.clone()),
        Message {
            sequence: Some(1),
            kind: MessageKind::Dispatch { event_type: "READY".to_string(), data: "{}".to_string() },
        }
    );
    let no_tag = GatewayPayload { t: None, ..full.clone() };
    assert_eq!(classify(no_tag).kind, MessageKind::Other { op: 0 });
    let no_body = GatewayPayload { d: None, ..full };
    assert_eq!(classify(no_body).kind, MessageKind::Other { op: 0 });
}

#[test]
fn cadence_counts_only_for_a_hello() {
    let ack = GatewayPayload { op: 11, d: None, s: None, t: None };
    assert_eq!(message_from(ack, Some(5)).kind, MessageKind::HeartbeatAck);
    let hello = GatewayPayload { op: 10, d: None, s: None, t: None };
    assert_eq!(
        message_from(hello, Some(5)).kind,
        MessageKind::Hello { heartbeat_interval: Some(5) }
    );
}

#[test]
fn hello_decodes_with_its_cadence() {
    let message = decode_text("{\"t\":null,\"s\":null,\"op\":10,\"d\":{\"heartbeat_interval\":30000}}");
    assert_eq!(
        message,
        Ok(Message { sequence: None, kind: MessageKind::Hello { heartbeat_interval: Some(30000) } })
    );
}

#[test]
fn hello_without_cadence_is_tolerated() {
    assert_eq!(
        decode_text("{\"op\":10,\"d\":{}}"),
        Ok(Message { sequence: None, kind: MessageKind::Hello { heartbeat_interval: None } })
    );
    assert_eq!(
        decode_text("{\"op\":10}"),
        Ok(Message { sequence: None, kind: MessageKind::Hello { heartbeat_interval: None } })
    );
}

#[test]
fn binary_frame_decodes_as_its_text() {
    let text = "{\"t\":\"MESSAGE_CREATE\",\"s\":7,\"op\":0,\"d\":{\"channel_id\":\"c1\"}}";
    let from_text = decode_frame(&Frame::Text(text.to_string()));
    let from_binary = decode_frame(&Frame::Binary(deflate(text)));
    assert_eq!(from_binary, from_text);
    assert_eq!(
        from_binary,
        Ok(Message {
            sequence: Some(7),
            kind: MessageKind::Dispatch {
                event_type: "MESSAGE_CREATE".to_string(),
                data: "{\"channel_id\":\"c1\"}".to_string(),
            },
        })
    );
}

#[test]
fn inflating_gives_the_text_back() {
    let text = "{\"op\":11}";
    let packed = deflate(text);
    assert_ne!(packed, text.as_bytes());
    assert_eq!(decompress_zlib(&packed), Ok(text.to_string()));
    assert_eq!(decompress_zlib(&deflate("")), Ok(String::new()));
}

#[test]
fn bytes_that_do_not_inflate_are_a_decompress_error() {
    assert_eq!(decompress_zlib(b"{\"op\":11}"), Err(FrameError::Decompress));
    assert_eq!(decompress_zlib(&[]), Err(FrameError::Decompress));
    let mut cut = deflate("{\"op\":11,\"d\":\"some longer body to cut in two\"}");
    cut.truncate(cut.len() / 2);
    assert_eq!(decompress_zlib(&cut), Err(FrameError::Decompress));
    assert_eq!(
        decode_frame(&Frame::Binary(vec![1, 2, 3, 4])),
        Err(FrameError::Decompress)
    );
}

#[test]
fn inflated_bytes_have_to_be_utf8() {
    let mut encoder =
        flate2::write::ZlibEncoder::new(Vec::new(), flate2::Compression::default());
    encoder.write_all(&[0xff, 0xfe, 0xfd]).unwrap();
    let packed = encoder.finish().unwrap();
    assert_eq!(decompress_zlib(&packed), Err(FrameError::Decompress));
}

#[test]
fn inflated_text_that_is_no_envelope_is_malformed() {
    assert_eq!(
        decode_frame(&Frame::Binary(deflate("not json"))),
        Err(FrameError::Malformed)
    );
    assert_eq!(decode_frame(&Frame::Text("not json".to_string())), Err(FrameError::Malformed));
}
