//! Encoding of a wire event as a JSON document, and the law that decoding
//! undoes it.

use crate::decimal::{decimal, decimal_string, lemma_read_decimal};
use crate::decode::{decode_event, decode_sender, DecodeError};
use crate::event::{
    lemma_sex_tag_reads_back, lemma_sub_type_tag_reads_back, tag_of_sex, tag_of_sub_type,
    CategoryModel, EventModel, MessageModel, OneEvent, OneMessageType, OnePrivateSender,
    OneSubType, OneType, SenderModel,
};
use crate::json::{find_member, members_model, Json, JsonModel};
use vstd::prelude::*;
use vstd::string::*;

verus! {

/// The JSON number that writes `n`.
pub open spec fn number(n: nat) -> JsonModel {
    JsonModel::Number(decimal(n))
}

/// The JSON number that writes `n`, or `null` where there is none.
pub open spec fn optional_number(n: Option<u32>) -> JsonModel {
    match n {
        Some(v) => number(v as nat),
        None => JsonModel::Null,
    }
}

/// The tag of `sub_type` as a JSON text, or `null` where there is none.
pub open spec fn optional_sub_type(sub_type: Option<OneSubType>) -> JsonModel {
    match sub_type {
        Some(v) => JsonModel::Text(tag_of_sub_type(v)),
        None => JsonModel::Null,
    }
}

/// The object that describes a sender.
pub open spec fn encode_sender(sender: SenderModel) -> JsonModel {
    JsonModel::Object(
        seq![
            ("user_id"@, number(sender.user_id as nat)),
            ("nickname"@, JsonModel::Text(sender.nickname)),
            ("sex"@, JsonModel::Text(tag_of_sex(sender.sex))),
            ("age"@, optional_number(sender.age)),
        ],
    )
}

/// The object that describes an event: `time` and `self_id`, the tag
/// `post_type`, and for a message its tag `message_type` and its members.
pub open spec fn encode_event(event: EventModel) -> JsonModel {
    match event.post_type {
        CategoryModel::Message {
            content: MessageModel::Private {
                sub_type,
                message_id,
                user_id,
                message,
                raw_message,
                font,
                sender,
            },
        } => JsonModel::Object(
            seq![
                ("time"@, number(event.time as nat)),
                ("self_id"@, number(event.self_id as nat)),
                ("post_type"@, JsonModel::Text("message"@)),
                ("message_type"@, JsonModel::Text("private"@)),
                ("sub_type"@, optional_sub_type(sub_type)),
                ("message_id"@, number(message_id as nat)),
                ("user_id"@, number(user_id as nat)),
                ("message"@, message),
                ("raw_message"@, JsonModel::Text(raw_message)),
                ("font"@, number(font as nat)),
                ("sender"@, encode_sender(sender)),
            ],
        ),
        CategoryModel::Notice => encode_bare(event, "notice"@),
        CategoryModel::Request => encode_bare(event, "request"@),
        CategoryModel::MetaEvent => encode_bare(event, "meta_event"@),
    }
}

/// The object that describes an event of a category without members.
pub open spec fn encode_bare(event: EventModel, tag: Seq<char>) -> JsonModel {
    JsonModel::Object(
        seq![
            ("time"@, number(event.time as nat)),
            ("self_id"@, number(event.self_id as nat)),
            ("post_type"@, JsonModel::Text(tag)),
        ],
    )
}

/// A member of an object.
fn entry(key: &str, value: Json) -> (r: (String, Json))
    ensures
        r.0@ == key@,
        r.1@ == value@,
{
    (String::from_str(key), value)
}

/// The JSON number that writes `n`.
fn number_value(n: u64) -> (r: Json)
    ensures
        r@ == number(n as nat),
{
    Json::Number(decimal_string(n))
}

/// The JSON text `text`.
fn text_value(text: &str) -> (r: Json)
    ensures
        r@ == JsonModel::Text(text@),
{
    Json::Text(String::from_str(text))
}

impl OnePrivateSender {
    /// Writes the sender as the object that describes it.
    pub fn to_document(&self) -> (r: Json)
        ensures
            r@ == encode_sender(self@),
    {
        let age: Json = match self.age {
            Some(v) => number_value(v as u64),
            None => Json::Null,
        };
        let mut members: Vec<(String, Json)> = Vec::new();
        members.push(entry("user_id", number_value(self.user_id)));
        members.push(entry("nickname", text_value(self.nickname.as_str())));
        members.push(entry("sex", text_value(self.sex.tag())));
        members.push(entry("age", age));
        assert(members_model(members@) =~= encode_sender(self@)->Object_0);
        Json::Object(members)
    }
}

impl OneEvent {
    /// Writes an event of a category without members, under the tag `tag`.
    fn bare_document(&self, tag: &str) -> (r: Json)
        ensures
            r@ == encode_bare(self@, tag@),
    {
        let mut members: Vec<(String, Json)> = Vec::new();
        members.push(entry("time", number_value(self.time)));
        members.push(entry("self_id", number_value(self.self_id)));
        members.push(entry("post_type", text_value(tag)));
        assert(members_model(members@) =~= encode_bare(self@, tag@)->Object_0);
        Json::Object(members)
    }

    /// Writes the event as the object that describes it.
    pub fn to_document(&self) -> (r: Json)
        ensures
            r@ == encode_event(self@),
    {
        match &self.post_type {
            OneType::Message {
                content: OneMessageType::Private {
                    sub_type,
                    message_id,
                    user_id,
                    message,
                    raw_message,
                    font,
                    sender,
                },
            } => {
                let kind: Json = match sub_type {
                    Some(v) => text_value(v.tag()),
                    None => Json::Null,
                };
                let mut members: Vec<(String, Json)> = Vec::new();
                members.push(entry("time", number_value(self.time)));
                members.push(entry("self_id", number_value(self.self_id)));
                members.push(entry("post_type", text_value("message")));
                members.push(entry("message_type", text_value("private")));
                members.push(entry("sub_type", kind));
                members.push(entry("message_id", number_value(*message_id as u64)));
                members.push(entry("user_id", number_value(*user_id)));
                members.push(entry("message", message.clone()));
                members.push(entry("raw_message", text_value(raw_message.as_str())));
                members.push(entry("font", number_value(*font as u64)));
                members.push(entry("sender", sender.to_document()));
                assert(members_model(members@) =~= encode_event(self@)->Object_0);
                Json::Object(members)
            },
            OneType::Notice { .. } => self.bare_document("notice"),
            OneType::Request { .. } => self.bare_document("request"),
            OneType::MetaEvent { .. } => self.bare_document("meta_event"),
        }
    }
}

/// The length and the first character of each key and tag of the wire format:
/// what tells any two of them apart.
pub proof fn lemma_key_shapes()
    ensures
        "time"@.len() == 4 && "time"@[0] == 't',
        "font"@.len() == 4 && "font"@[0] == 'f',
        "self_id"@.len() == 7 && "self_id"@[0] == 's',
        "user_id"@.len() == 7 && "user_id"@[0] == 'u',
        "message"@.len() == 7 && "message"@[0] == 'm',
        "request"@.len() == 7 && "request"@[0] == 'r',
        "private"@.len() == 7 && "private"@[0] == 'p',
        "sub_type"@.len() == 8 && "sub_type"@[0] == 's',
        "nickname"@.len() == 8 && "nickname"@[0] == 'n',
        "post_type"@.len() == 9,
        "message_id"@.len() == 10 && "message_id"@[0] == 'm',
        "meta_event"@.len() == 10 && "meta_event"@[1] == 'e' && "meta_event"@[2] == 't',
        "message_id"@[2] == 's',
        "raw_message"@.len() == 11,
        "message_type"@.len() == 12,
        "sender"@.len() == 6 && "sender"@[0] == 's',
        "notice"@.len() == 6 && "notice"@[0] == 'n',
        "sex"@.len() == 3 && "sex"@[0] == 's',
        "age"@.len() == 3 && "age"@[0] == 'a',
{
    reveal_strlit("time");
    reveal_strlit("font");
    reveal_strlit("self_id");
    reveal_strlit("user_id");
    reveal_strlit("message");
    reveal_strlit("request");
    reveal_strlit("private");
    reveal_strlit("sub_type");
    reveal_strlit("nickname");
    reveal_strlit("post_type");
    reveal_strlit("message_id");
    reveal_strlit("meta_event");
    reveal_strlit("raw_message");
    reveal_strlit("message_type");
    reveal_strlit("sender");
    reveal_strlit("notice");
    reveal_strlit("sex");
    reveal_strlit("age");
}

/// Decoding the object that describes a sender gives that sender back.
pub proof fn lemma_sender_round_trip(sender: SenderModel)
    ensures
        decode_sender(encode_sender(sender)) == Ok::<SenderModel, DecodeError>(sender),
{
    lemma_key_shapes();
    lemma_sex_tag_reads_back(sender.sex);
    lemma_read_decimal(decimal(sender.user_id as nat), sender.user_id);
    if sender.age is Some {
        lemma_read_decimal(decimal(sender.age->0 as nat), sender.age->0 as u64);
    }
    reveal_with_fuel(find_member, 5);
}

/// Round trip: decoding the document that describes an event gives that event
/// back, whatever its category and whether or not its optional members are
/// there.
pub proof fn lemma_event_round_trip(event: EventModel)
    ensures
        decode_event(encode_event(event)) == Ok::<EventModel, DecodeError>(event),
{
    lemma_key_shapes();
    lemma_read_decimal(decimal(event.time as nat), event.time);
    lemma_read_decimal(decimal(event.self_id as nat), event.self_id);
    reveal_with_fuel(find_member, 12);
    match event.post_type {
        CategoryModel::Message {
            content: MessageModel::Private {
                sub_type,
                message_id,
                user_id,
                message,
                raw_message,
                font,
                sender,
            },
        } => {
            lemma_sender_round_trip(sender);
            lemma_read_decimal(decimal(message_id as nat), message_id as u64);
            lemma_read_decimal(decimal(user_id as nat), user_id);
            lemma_read_decimal(decimal(font as nat), font as u64);
            if sub_type is Some {
                lemma_sub_type_tag_reads_back(sub_type->0);
            }
        },
        _ => {},
    }
}

} // verus!
