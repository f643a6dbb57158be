use chat_core::json::{parse_json, Json};
use chat_core::protocol::{
    decode_envelope, decode_message, encode_data, encode_data_array, encode_envelope,
    kind_from_name, kind_str, optional_text, optional_text_list, parse_envelope, parse_message,
    MsgTypes, WebSocketMessage,
};

#[test]
fn kinds_have_lower_case_names() {
    assert_eq!(kind_str(MsgTypes::Users), "users");
    assert_eq!(kind_str(MsgTypes::Register), "register");
    assert_eq!(kind_str(MsgTypes::Message), "message");
    assert_eq!(kind_from_name(&String::from("users")), Some(MsgTypes::Users));
    assert_eq!(kind_from_name(&String::from("register")), Some(MsgTypes::Register));
    assert_eq!(kind_from_name(&String::from("message")), Some(MsgTypes::Message));
    assert_eq!(kind_from_name(&String::from("Users")), None);
    assert_eq!(kind_from_name(&String::from("")), None);
    assert_eq!(kind_from_name(&String::from("typing")), None);
}

#[test]
fn users_frame_decodes() {
    let envelope = parse_envelope("{\"messageType\":\"users\",\"dataArray\":[\"alice\",\"bob\"]}")
        .unwrap();
    assert_eq!(envelope.message_type, MsgTypes::Users);
    assert_eq!(envelope.data_array, Some(vec![String::from("alice"), String::from("bob")]));
    assert_eq!(envelope.data, None);
}

#[test]
fn null_members_read_as_absent() {
    let envelope =
        parse_envelope("{\"messageType\":\"register\",\"dataArray\":null,\"data\":\"alice\"}")
            .unwrap();
    assert_eq!(envelope.message_type, MsgTypes::Register);
    assert_eq!(envelope.data_array, None);
    assert_eq!(envelope.data, Some(String::from("alice")));
    let bare = parse_envelope("{\"messageType\":\"message\"}").unwrap();
    assert_eq!(bare.message_type, MsgTypes::Message);
    assert_eq!(bare.data_array, None);
    assert_eq!(bare.data, None);
}

#[test]
fn unknown_members_are_not_read() {
    let envelope =
        parse_envelope("{\"extra\":[1,2],\"messageType\":\"users\",\"dataArray\":[]}").unwrap();
    assert_eq!(envelope.message_type, MsgTypes::Users);
    assert_eq!(envelope.data_array, Some(vec![]));
}

#[test]
fn malformed_envelopes_are_refused() {
    assert!(parse_envelope("not json").is_none());
    assert!(parse_envelope("").is_none());
    assert!(parse_envelope("[]").is_none());
    assert!(parse_envelope("\"users\"").is_none());
    assert!(parse_envelope("{}").is_none());
    assert!(parse_envelope("{\"messageType\":\"typing\"}").is_none());
    assert!(parse_envelope("{\"messageType\":7}").is_none());
    assert!(parse_envelope("{\"messageType\":\"users\",\"dataArray\":\"alice\"}").is_none());
    assert!(parse_envelope("{\"messageType\":\"users\",\"dataArray\":[\"a\",1]}").is_none());
    assert!(parse_envelope("{\"messageType\":\"message\",\"data\":{\"from\":\"a\"}}").is_none());
    assert!(parse_envelope("{\"message_type\":\"users\"}").is_none());
}

#[test]
fn decode_envelope_reads_a_document() {
    let json = Json::Record(vec![
        (String::from("data"), Json::Text(String::from("x"))),
        (String::from("messageType"), Json::Text(String::from("message"))),
    ]);
    let envelope = decode_envelope(&json).unwrap();
    assert_eq!(envelope.message_type, MsgTypes::Message);
    assert_eq!(envelope.data, Some(String::from("x")));
    assert_eq!(envelope.data_array, None);
    assert!(decode_envelope(&Json::Null).is_none());
    assert!(decode_envelope(&Json::List(vec![])).is_none());
}

#[test]
fn optional_members_tell_absent_from_malformed() {
    let text = Json::Text(String::from("x"));
    let list = Json::List(vec![Json::Text(String::from("a")), Json::Text(String::from("b"))]);
    let mixed = Json::List(vec![Json::Text(String::from("a")), Json::Null]);
    assert_eq!(optional_text(None), Some(None));
    assert_eq!(optional_text(Some(&Json::Null)), Some(None));
    assert_eq!(optional_text(Some(&text)), Some(Some(String::from("x"))));
    assert_eq!(optional_text(Some(&list)), None);
    assert_eq!(optional_text(Some(&Json::Number)), None);
    assert_eq!(optional_text_list(None), Some(None));
    assert_eq!(optional_text_list(Some(&Json::Null)), Some(None));
    assert_eq!(
        optional_text_list(Some(&list)),
        Some(Some(vec![String::from("a"), String::from("b")]))
    );
    assert_eq!(optional_text_list(Some(&Json::List(vec![]))), Some(Some(vec![])));
    assert_eq!(optional_text_list(Some(&mixed)), None);
    assert_eq!(optional_text_list(Some(&text)), None);
}

#[test]
fn chat_message_decodes() {
    let message = parse_message("{\"from\":\"bob\",\"message\":\"hi\"}").unwrap();
    assert_eq!(message.from, "bob");
    assert_eq!(message.message, "hi");
    let extra = parse_message("{\"message\":\"m\",\"time\":1,\"from\":\"f\"}").unwrap();
    assert_eq!(extra.from, "f");
    assert_eq!(extra.message, "m");
}

#[test]
fn malformed_chat_messages_are_refused() {
    assert!(parse_message("hi").is_none());
    assert!(parse_message("").is_none());
    assert!(parse_message("{}").is_none());
    assert!(parse_message("{\"from\":\"bob\"}").is_none());
    assert!(parse_message("{\"message\":\"hi\"}").is_none());
    assert!(parse_message("{\"from\":null,\"message\":\"hi\"}").is_none());
    assert!(parse_message("{\"from\":\"bob\",\"message\":3}").is_none());
    assert!(parse_message("[\"bob\",\"hi\"]").is_none());
    assert!(decode_message(&Json::Text(String::from("hi"))).is_none());
}

#[test]
fn register_envelope_is_written_with_all_members() {
    let envelope = WebSocketMessage {
        message_type: MsgTypes::Register,
        data_array: None,
        data: Some(String::from("alice")),
    };
    assert_eq!(
        encode_envelope(&envelope),
        "{\"messageType\":\"register\",\"dataArray\":null,\"data\":\"alice\"}"
    );
}

#[test]
fn users_envelope_is_written_with_its_list() {
    let envelope = WebSocketMessage {
        message_type: MsgTypes::Users,
        data_array: Some(vec![String::from("a\"b"), String::from("c"), String::from("")]),
        data: None,
    };
    assert_eq!(
        encode_envelope(&envelope),
        "{\"messageType\":\"users\",\"dataArray\":[\"a\\\"b\",\"c\",\"\"],\"data\":null}"
    );
}

#[test]
fn members_are_written_one_by_one() {
    assert_eq!(encode_data_array(&None), "null");
    assert_eq!(encode_data_array(&Some(vec![])), "[]");
    assert_eq!(encode_data_array(&Some(vec![String::from("x")])), "[\"x\"]");
    assert_eq!(
        encode_data_array(&Some(vec![String::from("x"), String::from("y")])),
        "[\"x\",\"y\"]"
    );
    assert_eq!(encode_data(&None), "null");
    assert_eq!(encode_data(&Some(String::from("a\\b"))), "\"a\\\\b\"");
}

#[test]
fn written_envelopes_read_back() {
    let envelope = WebSocketMessage {
        message_type: MsgTypes::Message,
        data_array: Some(vec![String::from("x y"), String::from("\u{e9}\n")]),
        data: Some(String::from("{\"from\":\"bob\",\"message\":\"hi\"}")),
    };
    let frame = encode_envelope(&envelope);
    let back = parse_envelope(frame.as_str()).unwrap();
    assert_eq!(back.message_type, envelope.message_type);
    assert_eq!(back.data_array, envelope.data_array);
    assert_eq!(back.data, envelope.data);
    let value: serde_json::Value = serde_json::from_str(frame.as_str()).unwrap();
    assert_eq!(value["messageType"], "message");
    assert_eq!(value["data"], "{\"from\":\"bob\",\"message\":\"hi\"}");
    assert!(parse_json(frame.as_str()).is_some());
}
