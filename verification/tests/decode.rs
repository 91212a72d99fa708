use messenger_search::data_format::{
    message_from_json, photo_from_json, Conversation, ConversationHeader, MessageType,
    StoredMessage, ThreadType,
};
use messenger_search::error::Error;
use messenger_search::json::{parse_json_text, JsonValue};

fn header_json() -> String {
    "\"participants\":[{\"name\":\"alice\"},{\"name\":\"bob\"}],\"title\":\"our chat\",\"is_still_participant\":true,\"thread_type\":\"regular\",\"thread_path\":\"inbox/ourchat\"".to_string()
}

fn conv_json(messages: &str) -> String {
    format!("{{{},\"messages\":[{}]}}", header_json(), messages)
}

fn msg_json(sender: &str, ts: i64, content: &str) -> String {
    format!(
        "{{\"sender_name\":\"{}\",\"timestamp_ms\":{},\"content\":\"{}\",\"type\":\"Generic\"}}",
        sender, ts, content
    )
}

#[test]
fn test_parsing() {
    let msgs = format!(
        "{},{}",
        msg_json("alice", 1500000000000, "hello there"),
        "{\"sender_name\":\"bob\",\"timestamp_ms\":1500000100000,\"content\":\"look at this\",\"sticker\":{\"uri\":\"stickers/smile.png\"},\"share\":{\"link\":\"https://example.net/page\"},\"photos\":[{\"uri\":\"photos/a.jpg\",\"creation_timestamp\":1499},{\"uri\":\"photos/b.jpg\",\"creation_timestamp\":1501}],\"type\":\"Share\"}"
    );
    let c = Conversation::from_json_str(&conv_json(&msgs)).unwrap();
    assert_eq!(c.header.title, "our chat");
    assert_eq!(c.header.participants.len(), 2);
    assert_eq!(c.header.participants[0].name, "alice");
    assert_eq!(c.header.participants[1].name, "bob");
    assert!(c.header.is_still_participant);
    assert_eq!(c.header.thread_type, ThreadType::Regular);
    assert_eq!(c.header.thread_path, "inbox/ourchat");
    assert_eq!(c.messages.len(), 2);
    assert_eq!(c.messages[0].sender_name, "alice");
    assert_eq!(c.messages[0].timestamp_ms, 1500000000000);
    assert_eq!(c.messages[0].content, "hello there");
    assert_eq!(c.messages[0].message_type, MessageType::Generic);
    assert!(c.messages[0].sticker.is_none());
    assert!(c.messages[0].share.is_none());
    assert!(c.messages[0].photos.is_none());
    let m = &c.messages[1];
    assert_eq!(m.message_type, MessageType::Share);
    assert_eq!(m.sticker.as_ref().unwrap().uri, "stickers/smile.png");
    assert_eq!(m.share.as_ref().unwrap().link, "https://example.net/page");
    let photos = m.photos.as_ref().unwrap();
    assert_eq!(photos.len(), 2);
    assert_eq!(photos[0].uri, "photos/a.jpg");
    assert_eq!(photos[0].creation_timestamp, 1499);
    assert_eq!(photos[1].creation_timestamp, 1501);
}

#[test]
fn header_only_decode() {
    let h = ConversationHeader::from_json_str(&format!("{{{}}}", header_json())).unwrap();
    assert_eq!(h.title, "our chat");
    assert_eq!(h.thread_type, ThreadType::Regular);
}

#[test]
fn header_decodes_from_full_conversation() {
    let json = conv_json(&msg_json("alice", 1, "hi"));
    let h = ConversationHeader::from_json_str(&json).unwrap();
    assert_eq!(h.participants.len(), 2);
}

#[test]
fn malformed_json_is_parse_error() {
    for bad in [
        "{",
        "",
        "not json at all",
        "[]",
        "null",
        "{\"participants\":[]}",
    ] {
        match Conversation::from_json_str(bad) {
            Err(Error::ParseError(_)) => {}
            other => panic!("expected a parse error, got {:?}", other),
        }
    }
}

#[test]
fn missing_required_field_is_parse_error() {
    let no_title = format!(
        "{{\"participants\":[],\"is_still_participant\":false,\"thread_type\":\"regular\",\"thread_path\":\"p\",\"messages\":[]}}"
    );
    assert!(matches!(
        Conversation::from_json_str(&no_title),
        Err(Error::ParseError(_))
    ));
    let no_messages = format!("{{{}}}", header_json());
    assert!(matches!(
        Conversation::from_json_str(&no_messages),
        Err(Error::ParseError(_))
    ));
}

#[test]
fn fractional_timestamp_is_parse_error() {
    let msg = "{\"sender_name\":\"a\",\"timestamp_ms\":1.5,\"content\":\"x\",\"type\":\"Generic\"}";
    assert!(matches!(
        Conversation::from_json_str(&conv_json(msg)),
        Err(Error::ParseError(_))
    ));
}

#[test]
fn unknown_tags_are_parse_errors() {
    let bad_type = "{\"sender_name\":\"a\",\"timestamp_ms\":1,\"content\":\"x\",\"type\":\"Video\"}";
    assert!(matches!(
        Conversation::from_json_str(&conv_json(bad_type)),
        Err(Error::ParseError(_))
    ));
    let bad_thread = conv_json(&msg_json("a", 1, "x")).replace("regular", "irregular");
    assert!(matches!(
        Conversation::from_json_str(&bad_thread),
        Err(Error::ParseError(_))
    ));
}

#[test]
fn null_attachments_decode_as_absent() {
    let msg = "{\"sender_name\":\"a\",\"timestamp_ms\":1,\"content\":\"x\",\"sticker\":null,\"share\":null,\"photos\":null,\"type\":\"Generic\"}";
    let c = Conversation::from_json_str(&conv_json(msg)).unwrap();
    assert!(c.messages[0].sticker.is_none());
    assert!(c.messages[0].share.is_none());
    assert!(c.messages[0].photos.is_none());
}

#[test]
fn stored_message_decode() {
    let good = "{\"sender_name\":[\"carol\"],\"timestamp_ms\":[42],\"content\":[\"hey\"]}";
    let m = StoredMessage::from_json_str(good).unwrap();
    assert_eq!(m.sender_name, "carol");
    assert_eq!(m.timestamp_ms, 42);
    assert_eq!(m.content, "hey");

    let two_values = "{\"sender_name\":[\"carol\",\"dan\"],\"timestamp_ms\":[42],\"content\":[\"hey\"]}";
    assert!(matches!(
        StoredMessage::from_json_str(two_values),
        Err(Error::ParseError(_))
    ));
    let plain = "{\"sender_name\":\"carol\",\"timestamp_ms\":42,\"content\":\"hey\"}";
    assert!(matches!(
        StoredMessage::from_json_str(plain),
        Err(Error::ParseError(_))
    ));
}

#[test]
fn decoders_work_on_hand_built_json_values() {
    let photo = JsonValue::Obj(vec![
        ("uri".to_string(), JsonValue::Text("pic.jpg".to_string())),
        ("creation_timestamp".to_string(), JsonValue::Int(5)),
    ]);
    let p = photo_from_json(&photo).unwrap();
    assert_eq!(p.uri, "pic.jpg");
    assert_eq!(p.creation_timestamp, 5);

    let message = JsonValue::Obj(vec![
        ("sender_name".to_string(), JsonValue::Text("dora".to_string())),
        ("timestamp_ms".to_string(), JsonValue::Int(99)),
        ("content".to_string(), JsonValue::Text("fine".to_string())),
        ("type".to_string(), JsonValue::Text("Generic".to_string())),
    ]);
    let m = message_from_json(&message).unwrap();
    assert_eq!(m.sender_name, "dora");
    assert_eq!(m.timestamp_ms, 99);
    assert_eq!(m.content, "fine");
    assert_eq!(m.message_type, MessageType::Generic);

    let missing_type = JsonValue::Obj(vec![
        ("sender_name".to_string(), JsonValue::Text("dora".to_string())),
        ("timestamp_ms".to_string(), JsonValue::Int(99)),
        ("content".to_string(), JsonValue::Text("fine".to_string())),
    ]);
    assert!(matches!(
        message_from_json(&missing_type),
        Err(Error::ParseError(_))
    ));
}

#[test]
fn text_parses_to_the_expected_json_value() {
    match parse_json_text("{\"a\":[1,true,null,\"x\"]}").unwrap() {
        JsonValue::Obj(entries) => {
            assert_eq!(entries.len(), 1);
            assert_eq!(entries[0].0, "a");
            match &entries[0].1 {
                JsonValue::Arr(items) => {
                    assert!(matches!(items[0], JsonValue::Int(1)));
                    assert!(matches!(items[1], JsonValue::Bool(true)));
                    assert!(matches!(items[2], JsonValue::Null));
                    assert!(matches!(&items[3], JsonValue::Text(t) if t == "x"));
                }
                other => panic!("expected an array, got {:?}", other),
            }
        }
        other => panic!("expected an object, got {:?}", other),
    }
    assert!(parse_json_text("{oops").is_err());
    assert!(matches!(
        parse_json_text("0.25").unwrap(),
        JsonValue::NumText(_)
    ));
}

#[test]
fn error_descriptions_are_kept() {
    match Conversation::from_json_str(&format!("{{{}}}", header_json())) {
        Err(e) => assert!(!e.describe().is_empty()),
        Ok(_) => panic!("a conversation without messages must not decode"),
    }
}
