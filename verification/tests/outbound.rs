use messagify::decimal::u64_to_decimal;
use messagify::outbound::{encode_heartbeat, encode_identify, INTENTS};

#[test]
fn decimal_notation_has_no_leading_zeros() {
    assert_eq!(u64_to_decimal(0), "0");
    assert_eq!(u64_to_decimal(7), "7");
    assert_eq!(u64_to_decimal(9), "9");
    assert_eq!(u64_to_decimal(10), "10");
    assert_eq!(u64_to_decimal(109), "109");
    assert_eq!(u64_to_decimal(41250), "41250");
    assert_eq!(u64_to_decimal(1234567890), "1234567890");
    assert_eq!(u64_to_decimal(u64::MAX), "18446744073709551615");
}

#[test]
fn heartbeat_without_sequence_carries_null() {
    assert_eq!(encode_heartbeat(None), "{\"d\":null,\"op\":1}");
}

#[test]
fn heartbeat_carries_the_last_sequence() {
    assert_eq!(encode_heartbeat(Some(7)), "{\"d\":7,\"op\":1}");
    assert_eq!(encode_heartbeat(Some(0)), "{\"d\":0,\"op\":1}");
    assert_eq!(
        encode_heartbeat(Some(u64::MAX)),
        "{\"d\":18446744073709551615,\"op\":1}"
    );
}

#[test]
fn identify_carries_token_identity_and_intents() {
    assert_eq!(INTENTS, 33281);
    assert_eq!(
        encode_identify("secret"),
        "{\"d\":{\"intents\":33281,\"properties\":{\"browser\":\"messagify\",\"device\":\"messagify\",\"os\":\"windows\"},\"token\":\"secret\"},\"op\":2}"
    );
}

#[test]
fn identify_escapes_the_token() {
    let frame = encode_identify("a\"b\\c\n");
    assert!(frame.contains("\"token\":\"a\\\"b\\\\c\\n\""));
    let parsed: serde_json::Value = serde_json::from_str(&frame).unwrap();
    assert_eq!(parsed["op"].as_u64(), Some(2));
    assert_eq!(parsed["d"]["token"].as_str(), Some("a\"b\\c\n"));
    assert_eq!(parsed["d"]["intents"].as_u64(), Some(33281));
    assert_eq!(parsed["d"]["properties"]["os"].as_str(), Some("windows"));
    assert_eq!(parsed["d"]["properties"]["browser"].as_str(), Some("messagify"));
    assert_eq!(parsed["d"]["properties"]["device"].as_str(), Some("messagify"));
}

#[test]
fn heartbeat_is_valid_json() {
    let parsed: serde_json::Value = serde_json::from_str(&encode_heartbeat(Some(42))).unwrap();
    assert_eq!(parsed["op"].as_u64(), Some(1));
    assert_eq!(parsed["d"].as_u64(), Some(42));
    let parsed: serde_json::Value = serde_json::from_str(&encode_heartbeat(None)).unwrap();
    assert!(parsed["d"].is_null());
}
