use onebot11::decode::{read_optional_u32, read_sex, read_sub_type, read_text, read_u32, read_u64, DecodeError};
use onebot11::event::{
    OneEvent, OneMessageType, OneMetaEvent, OneNotice, OnePrivateSender, OneRequest, OneSex,
    OneSubType, OneType,
};
use onebot11::json::{parse_document, Json};

const PRIVATE: &str = "{\"time\":1700000000,\"self_id\":111,\"post_type\":\"message\",\"message_type\":\"private\",\"sub_type\":\"friend\",\"message_id\":42,\"user_id\":222,\"message\":[],\"raw_message\":\"hello\",\"font\":0,\"sender\":{\"user_id\":222,\"nickname\":\"Alice\",\"sex\":\"female\",\"age\":30}}";

fn alice() -> OneEvent {
    OneEvent {
        time: 1700000000,
        self_id: 111,
        post_type: OneType::Message {
            content: OneMessageType::Private {
                sub_type: Some(OneSubType::Friend),
                message_id: 42,
                user_id: 222,
                message: Json::Array(vec![]),
                raw_message: "hello".to_string(),
                font: 0,
                sender: OnePrivateSender {
                    user_id: 222,
                    nickname: "Alice".to_string(),
                    sex: OneSex::Female,
                    age: Some(30),
                },
            },
        },
    }
}

#[test]
fn decodes_a_private_message() {
    assert_eq!(OneEvent::decode(PRIVATE), Ok(alice()));
}

#[test]
fn decodes_whatever_the_order_of_the_members() {
    let text = "{\"sender\":{\"age\":30,\"sex\":\"female\",\"nickname\":\"Alice\",\"user_id\":222},\"font\":0,\"raw_message\":\"hello\",\"message\":[],\"user_id\":222,\"message_id\":42,\"sub_type\":\"friend\",\"message_type\":\"private\",\"post_type\":\"message\",\"self_id\":111,\"time\":1700000000}";
    assert_eq!(OneEvent::decode(text), Ok(alice()));
}

#[test]
fn decodes_the_payload_as_it_came() {
    let text = PRIVATE.replace(
        "\"message\":[]",
        "\"message\":[{\"type\":\"text\",\"data\":{\"text\":\"hello\",\"n\":-1.5}}]",
    );
    let event = OneEvent::decode(&text).unwrap();
    let OneType::Message { content: OneMessageType::Private { message, .. } } = event.post_type
    else {
        panic!("not a message");
    };
    assert_eq!(
        message,
        Json::Array(vec![Json::Object(vec![
            (
                "data".to_string(),
                Json::Object(vec![
                    ("n".to_string(), Json::Number("-1.5".to_string())),
                    ("text".to_string(), Json::Text("hello".to_string())),
                ])
            ),
            ("type".to_string(), Json::Text("text".to_string())),
        ])])
    );
}

#[test]
fn optional_members_may_be_absent() {
    let text = PRIVATE.replace("\"sub_type\":\"friend\",", "").replace(",\"age\":30", "");
    let mut expected = alice();
    let OneType::Message { content: OneMessageType::Private { sub_type, sender, .. } } =
        &mut expected.post_type
    else {
        panic!("not a message");
    };
    *sub_type = None;
    sender.age = None;
    assert_eq!(OneEvent::decode(&text), Ok(expected));
}

#[test]
fn optional_members_may_be_null() {
    let text = PRIVATE
        .replace("\"sub_type\":\"friend\"", "\"sub_type\":null")
        .replace("\"age\":30", "\"age\":null");
    let event = OneEvent::decode(&text).unwrap();
    let OneType::Message { content: OneMessageType::Private { sub_type, sender, .. } } =
        event.post_type
    else {
        panic!("not a message");
    };
    assert_eq!(sub_type, None);
    assert_eq!(sender.age, None);
}

#[test]
fn decodes_every_sub_type_and_sex() {
    for (tag, expected) in [
        ("friend", OneSubType::Friend),
        ("group", OneSubType::Group),
        ("other", OneSubType::Other),
    ] {
        let text = PRIVATE.replace("\"sub_type\":\"friend\"", &format!("\"sub_type\":\"{}\"", tag));
        let event = OneEvent::decode(&text).unwrap();
        let OneType::Message { content: OneMessageType::Private { sub_type, .. } } =
            event.post_type
        else {
            panic!("not a message");
        };
        assert_eq!(sub_type, Some(expected));
    }
    for (tag, expected) in
        [("male", OneSex::Male), ("female", OneSex::Female), ("unknown", OneSex::Unknown)]
    {
        let text = PRIVATE.replace("\"sex\":\"female\"", &format!("\"sex\":\"{}\"", tag));
        let event = OneEvent::decode(&text).unwrap();
        let OneType::Message { content: OneMessageType::Private { sender, .. } } = event.post_type
        else {
            panic!("not a message");
        };
        assert_eq!(sender.sex, expected);
    }
}

#[test]
fn decodes_the_categories_without_members() {
    assert_eq!(
        OneEvent::decode("{\"time\":1,\"self_id\":2,\"post_type\":\"notice\"}"),
        Ok(OneEvent { time: 1, self_id: 2, post_type: OneType::Notice { content: OneNotice {} } })
    );
    assert_eq!(
        OneEvent::decode("{\"time\":1,\"self_id\":2,\"post_type\":\"request\"}"),
        Ok(OneEvent { time: 1, self_id: 2, post_type: OneType::Request { content: OneRequest {} } })
    );
    assert_eq!(
        OneEvent::decode("{\"time\":1,\"self_id\":2,\"post_type\":\"meta_event\",\"x\":[1]}"),
        Ok(OneEvent {
            time: 1,
            self_id: 2,
            post_type: OneType::MetaEvent { content: OneMetaEvent {} }
        })
    );
}

#[test]
fn malformed_text_is_rejected() {
    assert_eq!(OneEvent::decode("{not json"), Err(DecodeError::Malformed));
    assert_eq!(OneEvent::decode(""), Err(DecodeError::Malformed));
    assert_eq!(OneEvent::decode(&PRIVATE[..PRIVATE.len() - 1]), Err(DecodeError::Malformed));
}

#[test]
fn a_document_that_is_no_object_is_rejected() {
    assert_eq!(OneEvent::decode("[1,2]"), Err(DecodeError::NotAnObject));
    assert_eq!(OneEvent::decode("null"), Err(DecodeError::NotAnObject));
    assert_eq!(OneEvent::decode("\"message\""), Err(DecodeError::NotAnObject));
}

#[test]
fn a_missing_post_type_is_rejected() {
    let text = PRIVATE.replace("\"post_type\":\"message\",", "");
    assert_eq!(OneEvent::decode(&text), Err(DecodeError::MissingField));
    assert_eq!(OneEvent::decode("{\"time\":1,\"self_id\":2}"), Err(DecodeError::MissingField));
}

#[test]
fn an_unknown_post_type_is_rejected() {
    for tag in ["\"heartbeat\"", "\"Message\"", "\"\"", "\"message \"", "0", "null", "[\"message\"]"]
    {
        let text = PRIVATE.replace("\"post_type\":\"message\"", &format!("\"post_type\":{}", tag));
        assert_eq!(OneEvent::decode(&text), Err(DecodeError::UnknownPostType), "{}", tag);
    }
}

#[test]
fn a_missing_message_type_is_rejected() {
    let text = PRIVATE.replace("\"message_type\":\"private\",", "");
    assert_eq!(OneEvent::decode(&text), Err(DecodeError::MissingField));
}

#[test]
fn an_unknown_message_type_is_rejected() {
    for tag in ["\"group\"", "\"guild\"", "\"PRIVATE\"", "1", "null"] {
        let text =
            PRIVATE.replace("\"message_type\":\"private\"", &format!("\"message_type\":{}", tag));
        assert_eq!(OneEvent::decode(&text), Err(DecodeError::UnknownMessageType), "{}", tag);
    }
}

#[test]
fn each_required_member_is_required() {
    for member in [
        "\"time\":1700000000,",
        "\"self_id\":111,",
        "\"message_id\":42,",
        "\"user_id\":222,\"message\"",
        "\"message\":[],",
        "\"raw_message\":\"hello\",",
        "\"font\":0,",
        "\"user_id\":222,\"nickname\"",
        "\"nickname\":\"Alice\",",
        "\"sex\":\"female\",",
    ] {
        let kept = if member.ends_with("\"message\"") {
            "\"message\""
        } else if member.ends_with("\"nickname\"") {
            "\"nickname\""
        } else {
            ""
        };
        let text = PRIVATE.replace(member, kept);
        assert_ne!(text, PRIVATE);
        assert_eq!(OneEvent::decode(&text), Err(DecodeError::MissingField), "{}", member);
    }
    let text = PRIVATE.replace(
        ",\"sender\":{\"user_id\":222,\"nickname\":\"Alice\",\"sex\":\"female\",\"age\":30}",
        "",
    );
    assert_eq!(OneEvent::decode(&text), Err(DecodeError::MissingField));
}

#[test]
fn members_of_the_wrong_kind_are_rejected() {
    for (from, to) in [
        ("\"time\":1700000000", "\"time\":\"1700000000\""),
        ("\"time\":1700000000", "\"time\":-1"),
        ("\"time\":1700000000", "\"time\":1.5"),
        ("\"time\":1700000000", "\"time\":18446744073709551616"),
        ("\"self_id\":111", "\"self_id\":null"),
        ("\"message_id\":42", "\"message_id\":4294967296"),
        ("\"font\":0", "\"font\":true"),
        ("\"raw_message\":\"hello\"", "\"raw_message\":5"),
        ("\"sub_type\":\"friend\"", "\"sub_type\":\"stranger\""),
        ("\"sub_type\":\"friend\"", "\"sub_type\":1"),
        ("\"sex\":\"female\"", "\"sex\":\"f\""),
        ("\"age\":30", "\"age\":\"30\""),
        ("\"age\":30", "\"age\":4294967296"),
        ("\"nickname\":\"Alice\"", "\"nickname\":[]"),
    ] {
        let text = PRIVATE.replace(from, to);
        assert_ne!(text, PRIVATE);
        assert_eq!(OneEvent::decode(&text), Err(DecodeError::InvalidField), "{}", to);
    }
    let text = PRIVATE.replace(
        "\"sender\":{\"user_id\":222,\"nickname\":\"Alice\",\"sex\":\"female\",\"age\":30}",
        "\"sender\":\"Alice\"",
    );
    assert_eq!(OneEvent::decode(&text), Err(DecodeError::InvalidField));
}

#[test]
fn the_largest_numbers_are_accepted() {
    let text = PRIVATE
        .replace("\"time\":1700000000", "\"time\":18446744073709551615")
        .replace("\"message_id\":42", "\"message_id\":4294967295");
    let event = OneEvent::decode(&text).unwrap();
    assert_eq!(event.time, u64::MAX);
    let OneType::Message { content: OneMessageType::Private { message_id, .. } } = event.post_type
    else {
        panic!("not a message");
    };
    assert_eq!(message_id, u32::MAX);
}

#[test]
fn the_first_failing_member_decides_the_error() {
    let text = PRIVATE.replace("\"time\":1700000000,", "").replace("\"self_id\":111", "\"self_id\":\"x\"");
    assert_eq!(OneEvent::decode(&text), Err(DecodeError::MissingField));
    let text = PRIVATE
        .replace("\"self_id\":111", "\"self_id\":\"x\"")
        .replace("\"post_type\":\"message\"", "\"post_type\":\"other\"");
    assert_eq!(OneEvent::decode(&text), Err(DecodeError::InvalidField));
}

#[test]
fn from_document_agrees_with_decode() {
    let doc = parse_document(PRIVATE).unwrap();
    assert_eq!(OneEvent::from_document(&doc), Ok(alice()));
    assert_eq!(OneEvent::from_document(&Json::Null), Err(DecodeError::NotAnObject));
}

#[test]
fn the_parts_decode_on_their_own() {
    let doc = parse_document(PRIVATE).unwrap();
    assert_eq!(OneType::from_document(&doc), Ok(alice().post_type));
    let sender = OnePrivateSender::from_document(doc.member("sender").unwrap()).unwrap();
    assert_eq!(sender.nickname, "Alice");
    assert_eq!(OnePrivateSender::from_document(&Json::Null), Err(DecodeError::InvalidField));
    assert!(OneMessageType::from_document(&doc).is_ok());
}

#[test]
fn field_readers_read_exact_values() {
    let doc = parse_document("{\"a\":7,\"b\":\"t\",\"c\":null,\"sex\":\"male\",\"sub_type\":\"group\",\"big\":4294967296}").unwrap();
    assert_eq!(read_u64(&doc, "a"), Ok(7));
    assert_eq!(read_u64(&doc, "big"), Ok(4294967296));
    assert_eq!(read_u32(&doc, "a"), Ok(7));
    assert_eq!(read_u32(&doc, "big"), Err(DecodeError::InvalidField));
    assert_eq!(read_u64(&doc, "b"), Err(DecodeError::InvalidField));
    assert_eq!(read_u64(&doc, "zz"), Err(DecodeError::MissingField));
    assert_eq!(read_optional_u32(&doc, "a"), Ok(Some(7)));
    assert_eq!(read_optional_u32(&doc, "c"), Ok(None));
    assert_eq!(read_optional_u32(&doc, "zz"), Ok(None));
    assert_eq!(read_optional_u32(&doc, "b"), Err(DecodeError::InvalidField));
    assert_eq!(read_text(&doc, "b"), Ok(&"t".to_string()));
    assert_eq!(read_text(&doc, "a"), Err(DecodeError::InvalidField));
    assert_eq!(read_text(&doc, "zz"), Err(DecodeError::MissingField));
    assert_eq!(read_sex(&doc), Ok(OneSex::Male));
    assert_eq!(read_sub_type(&doc), Ok(Some(OneSubType::Group)));
}

#[test]
fn tags_read_back() {
    for sex in [OneSex::Male, OneSex::Female, OneSex::Unknown] {
        assert_eq!(OneSex::from_tag(sex.tag()), Some(sex));
    }
    for sub_type in [OneSubType::Friend, OneSubType::Group, OneSubType::Other] {
        assert_eq!(OneSubType::from_tag(sub_type.tag()), Some(sub_type));
    }
    assert_eq!(OneSex::Male.tag(), "male");
    assert_eq!(OneSubType::Other.tag(), "other");
    assert_eq!(OneSex::from_tag("Male"), None);
    assert_eq!(OneSubType::from_tag(""), None);
}

#[test]
fn a_frame_may_end_with_a_newline() {
    assert_eq!(OneEvent::decode(&format!("{}\n", PRIVATE)), Ok(alice()));
    assert_eq!(OneEvent::decode(&format!("  {}\r\n", PRIVATE)), Ok(alice()));
}

#[test]
fn of_two_members_with_one_name_the_last_counts() {
    let text = PRIVATE.replace("\"time\":1700000000", "\"time\":1,\"time\":1700000000");
    assert_eq!(OneEvent::decode(&text), Ok(alice()));
}
