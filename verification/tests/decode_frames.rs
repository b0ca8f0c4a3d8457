use chat_delivery::decode::RawFrame;
use chat_delivery::protocol::ClientMessage;

#[test]
fn decode_send_message() {
    let got = ClientMessage::decode(r#"{"type":"SendMessage","chat_id":7,"message":"hi"}"#);
    assert_eq!(
        got,
        Some(ClientMessage::SendMessage { chat_id: 7, message: "hi".to_string(), reply_to_id: None })
    );
}

#[test]
fn decode_send_message_with_reply() {
    let got = ClientMessage::decode(
        r#"{"type":"SendMessage","chat_id":7,"message":"re: hi","reply_to_id":41}"#,
    );
    assert_eq!(
        got,
        Some(ClientMessage::SendMessage {
            chat_id: 7,
            message: "re: hi".to_string(),
            reply_to_id: Some(41),
        })
    );
}

#[test]
fn decode_send_message_with_null_reply() {
    let got = ClientMessage::decode(
        r#"{"type":"SendMessage","chat_id":7,"message":"x","reply_to_id":null}"#,
    );
    assert_eq!(
        got,
        Some(ClientMessage::SendMessage { chat_id: 7, message: "x".to_string(), reply_to_id: None })
    );
}

#[test]
fn decode_send_message_rejects_a_reply_that_is_no_number() {
    let got = ClientMessage::decode(
        r#"{"type":"SendMessage","chat_id":7,"message":"x","reply_to_id":"41"}"#,
    );
    assert_eq!(got, None);
}

#[test]
fn decode_send_message_keeps_escapes_and_unicode() {
    let got = ClientMessage::decode(
        "{\"type\":\"SendMessage\",\"chat_id\":1,\"message\":\"a\\\"b\\n\\u00e9 \u{1F600}\"}",
    );
    assert_eq!(
        got,
        Some(ClientMessage::SendMessage {
            chat_id: 1,
            message: "a\"b\n\u{e9} \u{1F600}".to_string(),
            reply_to_id: None,
        })
    );
}

#[test]
fn decode_send_message_needs_its_fields() {
    assert_eq!(ClientMessage::decode(r#"{"type":"SendMessage","chat_id":7}"#), None);
    assert_eq!(ClientMessage::decode(r#"{"type":"SendMessage","message":"hi"}"#), None);
    assert_eq!(
        ClientMessage::decode(r#"{"type":"SendMessage","chat_id":"7","message":"hi"}"#),
        None
    );
    assert_eq!(
        ClientMessage::decode(r#"{"type":"SendMessage","chat_id":7,"message":5}"#),
        None
    );
}

#[test]
fn decode_typing_frames() {
    assert_eq!(
        ClientMessage::decode(r#"{"type":"TypingStart","chat_id":7}"#),
        Some(ClientMessage::TypingStart { chat_id: 7 })
    );
    assert_eq!(
        ClientMessage::decode(r#"{"type":"TypingStop","chat_id":8}"#),
        Some(ClientMessage::TypingStop { chat_id: 8 })
    );
}

#[test]
fn decode_mark_as_read() {
    assert_eq!(
        ClientMessage::decode(r#"{"type":"MarkAsRead","message_id":99}"#),
        Some(ClientMessage::MarkAsRead { message_id: 99 })
    );
    assert_eq!(ClientMessage::decode(r#"{"type":"MarkAsRead","chat_id":99}"#), None);
}

#[test]
fn decode_join_and_leave() {
    assert_eq!(
        ClientMessage::decode(r#"{"type":"JoinChat","chat_id":3}"#),
        Some(ClientMessage::JoinChat { chat_id: 3 })
    );
    assert_eq!(
        ClientMessage::decode(r#"{"type":"LeaveChat","chat_id":3}"#),
        Some(ClientMessage::LeaveChat { chat_id: 3 })
    );
}

#[test]
fn decode_ping() {
    assert_eq!(ClientMessage::decode(r#"{"type":"Ping"}"#), Some(ClientMessage::Ping));
    assert_eq!(ClientMessage::decode(r#" { "type" : "Ping" , "extra" : [1, 2] } "#), Some(ClientMessage::Ping));
}

#[test]
fn decode_passes_over_members_that_the_action_does_not_have() {
    assert_eq!(
        ClientMessage::decode(r#"{"type":"TypingStart","chat_id":7,"message":12,"color":"red"}"#),
        Some(ClientMessage::TypingStart { chat_id: 7 })
    );
}

#[test]
fn decode_takes_the_largest_identifier() {
    assert_eq!(
        ClientMessage::decode(r#"{"type":"JoinChat","chat_id":18446744073709551615}"#),
        Some(ClientMessage::JoinChat { chat_id: u64::MAX })
    );
}

#[test]
fn decode_rejects_numbers_that_are_no_identifiers() {
    assert_eq!(ClientMessage::decode(r#"{"type":"JoinChat","chat_id":-1}"#), None);
    assert_eq!(ClientMessage::decode(r#"{"type":"JoinChat","chat_id":7.0}"#), None);
    assert_eq!(ClientMessage::decode(r#"{"type":"JoinChat","chat_id":18446744073709551616}"#), None);
    assert_eq!(ClientMessage::decode(r#"{"type":"JoinChat","chat_id":null}"#), None);
}

#[test]
fn decode_unknown_type_is_rejected() {
    assert_eq!(ClientMessage::decode(r#"{"type":"Shout","chat_id":7}"#), None);
    assert_eq!(ClientMessage::decode(r#"{"type":"ping"}"#), None);
    assert_eq!(ClientMessage::decode(r#"{"type":""}"#), None);
}

#[test]
fn decode_needs_a_type_that_is_a_string() {
    assert_eq!(ClientMessage::decode(r#"{"chat_id":7}"#), None);
    assert_eq!(ClientMessage::decode(r#"{"type":7}"#), None);
    assert_eq!(ClientMessage::decode(r#"{"type":null}"#), None);
    assert_eq!(ClientMessage::decode(r#"{}"#), None);
}

#[test]
fn decode_rejects_what_is_no_json_object() {
    assert_eq!(ClientMessage::decode(""), None);
    assert_eq!(ClientMessage::decode("Ping"), None);
    assert_eq!(ClientMessage::decode(r#""Ping""#), None);
    assert_eq!(ClientMessage::decode("7"), None);
    assert_eq!(ClientMessage::decode("null"), None);
    assert_eq!(ClientMessage::decode(r#"["Ping"]"#), None);
    assert_eq!(ClientMessage::decode(r#"{"type":"Ping""#), None);
    assert_eq!(ClientMessage::decode(r#"{"type":"Ping"} x"#), None);
}

#[test]
fn from_raw_reads_the_fields_of_the_kind() {
    let raw = RawFrame {
        kind: Some("MarkAsRead".to_string()),
        chat_id: Some(1),
        message: Some("ignored".to_string()),
        reply_to_id: None,
        message_id: Some(5),
    };
    assert_eq!(ClientMessage::from_raw(raw), Some(ClientMessage::MarkAsRead { message_id: 5 }));
}

#[test]
fn from_raw_without_kind_is_nothing() {
    let raw = RawFrame {
        kind: None,
        chat_id: Some(1),
        message: Some("m".to_string()),
        reply_to_id: Some(None),
        message_id: Some(5),
    };
    assert_eq!(ClientMessage::from_raw(raw), None);
}

#[test]
fn from_raw_send_message_with_bad_reply_is_nothing() {
    let raw = RawFrame {
        kind: Some("SendMessage".to_string()),
        chat_id: Some(1),
        message: Some("m".to_string()),
        reply_to_id: None,
        message_id: None,
    };
    assert_eq!(ClientMessage::from_raw(raw), None);
}
