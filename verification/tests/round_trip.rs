use onebot11::event::{
    OneEvent, OneMessageType, OneMetaEvent, OneNotice, OnePrivateSender, OneRequest, OneSex,
    OneSubType, OneType,
};
use onebot11::json::Json;

fn private(sub_type: Option<OneSubType>, age: Option<u32>, message: Json) -> OneEvent {
    OneEvent {
        time: 1700000000,
        self_id: 111,
        post_type: OneType::Message {
            content: OneMessageType::Private {
                sub_type,
                message_id: 42,
                user_id: 222,
                message,
                raw_message: "he said \"hi\"\n".to_string(),
                font: 3,
                sender: OnePrivateSender {
                    user_id: 222,
                    nickname: "Alice".to_string(),
                    sex: OneSex::Female,
                    age,
                },
            },
        },
    }
}

#[test]
fn round_trip_with_optional_members_present() {
    let event = private(Some(OneSubType::Group), Some(30), Json::Array(vec![]));
    assert_eq!(OneEvent::from_document(&event.to_document()), Ok(event));
}

#[test]
fn round_trip_with_optional_members_absent() {
    let event = private(None, None, Json::Null);
    assert_eq!(OneEvent::from_document(&event.to_document()), Ok(event));
}

#[test]
fn round_trip_with_one_optional_member() {
    let event = private(Some(OneSubType::Other), None, Json::Bool(true));
    assert_eq!(OneEvent::from_document(&event.to_document()), Ok(event));
    let event = private(None, Some(0), Json::Text("x".to_string()));
    assert_eq!(OneEvent::from_document(&event.to_document()), Ok(event));
}

#[test]
fn round_trip_keeps_a_structured_payload() {
    let payload = Json::Array(vec![Json::Object(vec![
        ("type".to_string(), Json::Text("text".to_string())),
        (
            "data".to_string(),
            Json::Object(vec![("text".to_string(), Json::Text("hello".to_string()))]),
        ),
        ("sender".to_string(), Json::Number("-2.5e3".to_string())),
    ])]);
    let event = private(Some(OneSubType::Friend), Some(u32::MAX), payload);
    assert_eq!(OneEvent::from_document(&event.to_document()), Ok(event));
}

#[test]
fn round_trip_of_the_extreme_numbers() {
    let event = OneEvent {
        time: u64::MAX,
        self_id: 0,
        post_type: OneType::Message {
            content: OneMessageType::Private {
                sub_type: None,
                message_id: u32::MAX,
                user_id: u64::MAX,
                message: Json::Null,
                raw_message: String::new(),
                font: 0,
                sender: OnePrivateSender {
                    user_id: 0,
                    nickname: String::new(),
                    sex: OneSex::Unknown,
                    age: Some(u32::MAX),
                },
            },
        },
    };
    assert_eq!(OneEvent::from_document(&event.to_document()), Ok(event));
}

#[test]
fn round_trip_of_the_categories_without_members() {
    for post_type in [
        OneType::Notice { content: OneNotice {} },
        OneType::Request { content: OneRequest {} },
        OneType::MetaEvent { content: OneMetaEvent {} },
    ] {
        let event = OneEvent { time: 5, self_id: 6, post_type };
        assert_eq!(OneEvent::from_document(&event.to_document()), Ok(event));
    }
}

#[test]
fn the_document_of_an_event_has_exact_members() {
    let event = OneEvent { time: 5, self_id: 6, post_type: OneType::Notice { content: OneNotice {} } };
    assert_eq!(
        event.to_document(),
        Json::Object(vec![
            ("time".to_string(), Json::Number("5".to_string())),
            ("self_id".to_string(), Json::Number("6".to_string())),
            ("post_type".to_string(), Json::Text("notice".to_string())),
        ])
    );
    let sender = OnePrivateSender {
        user_id: 222,
        nickname: "Alice".to_string(),
        sex: OneSex::Male,
        age: None,
    };
    assert_eq!(
        sender.to_document(),
        Json::Object(vec![
            ("user_id".to_string(), Json::Number("222".to_string())),
            ("nickname".to_string(), Json::Text("Alice".to_string())),
            ("sex".to_string(), Json::Text("male".to_string())),
            ("age".to_string(), Json::Null),
        ])
    );
    assert_eq!(OnePrivateSender::from_document(&sender.to_document()), Ok(sender));
}

#[test]
fn the_document_of_a_message_names_its_tags_first() {
    let doc = private(Some(OneSubType::Friend), Some(30), Json::Array(vec![])).to_document();
    let Json::Object(members) = doc else {
        panic!("not an object");
    };
    let keys: Vec<&str> = members.iter().map(|(k, _)| k.as_str()).collect();
    assert_eq!(
        keys,
        vec![
            "time",
            "self_id",
            "post_type",
            "message_type",
            "sub_type",
            "message_id",
            "user_id",
            "message",
            "raw_message",
            "font",
            "sender"
        ]
    );
    assert_eq!(members[2].1, Json::Text("message".to_string()));
    assert_eq!(members[3].1, Json::Text("private".to_string()));
    assert_eq!(members[4].1, Json::Text("friend".to_string()));
    assert_eq!(members[5].1, Json::Number("42".to_string()));
}

fn to_value(doc: &Json) -> serde_json::Value {
    match doc {
        Json::Null => serde_json::Value::Null,
        Json::Bool(b) => serde_json::Value::Bool(*b),
        Json::Number(text) => serde_json::from_str(text).unwrap(),
        Json::Text(text) => serde_json::Value::String(text.clone()),
        Json::Array(items) => serde_json::Value::Array(items.iter().map(to_value).collect()),
        Json::Object(members) => serde_json::Value::Object(
            members.iter().map(|(k, v)| (k.clone(), to_value(v))).collect(),
        ),
    }
}

#[test]
fn round_trip_through_json_text() {
    for (sub_type, age) in [
        (Some(OneSubType::Friend), Some(30)),
        (Some(OneSubType::Group), None),
        (None, Some(u32::MAX)),
        (None, None),
    ] {
        let payload = Json::Array(vec![Json::Object(vec![
            ("data".to_string(), Json::Text("a \"quoted\" text\n".to_string())),
            ("n".to_string(), Json::Number("-1.5".to_string())),
        ])]);
        let event = private(sub_type, age, payload);
        let text = serde_json::to_string(&to_value(&event.to_document())).unwrap();
        assert_eq!(OneEvent::decode(&text), Ok(event));
    }
    for post_type in [
        OneType::Notice { content: OneNotice {} },
        OneType::Request { content: OneRequest {} },
        OneType::MetaEvent { content: OneMetaEvent {} },
    ] {
        let event = OneEvent { time: u64::MAX, self_id: 0, post_type };
        let text = serde_json::to_string(&to_value(&event.to_document())).unwrap();
        assert_eq!(OneEvent::decode(&text), Ok(event));
    }
}
