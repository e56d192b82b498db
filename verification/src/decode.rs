//! Decoding of a JSON document into a wire event. The decoder is structural:
//! it reads the members that the wire model names, tells the variants apart
//! by their tags, and rejects what it does not recognise.

use crate::decimal::{parse_decimal, read_decimal};
use crate::event::{
    same_text, sex_of_tag, sub_type_of_tag, CategoryModel, EventModel, MessageModel, OneEvent,
    OneMessageType, OneMetaEvent, OneNotice, OnePrivateSender, OneRequest, OneSex, OneSubType,
    OneType, SenderModel,
};
use crate::json::{parse_document, parsed_tree, Json, JsonModel};
use vstd::prelude::*;

verus! {

/// Why a payload is no wire event.
#[derive(Debug, Clone, Copy, PartialEq, Eq, Structural)]
pub enum DecodeError {
    /// The text is not JSON.
    Malformed,
    /// The document is not a JSON object.
    NotAnObject,
    /// A member that the model requires is absent.
    MissingField,
    /// A member is present with a value of the wrong kind or out of range.
    InvalidField,
    /// The tag `post_type` names none of the four categories.
    UnknownPostType,
    /// The tag `message_type` names no recognised kind of message.
    UnknownMessageType,
}

/// A result with its success value replaced by that value's model.
pub open spec fn result_model<T: View>(r: Result<T, DecodeError>) -> Result<T::V, DecodeError> {
    match r {
        Ok(value) => Ok(value@),
        Err(e) => Err(e),
    }
}

/// The member `key` as a number of 64 bits.
pub open spec fn u64_field(doc: JsonModel, key: Seq<char>) -> Result<u64, DecodeError> {
    match doc.member(key) {
        None => Err(DecodeError::MissingField),
        Some(JsonModel::Number(text)) => match read_decimal(text) {
            Some(n) => Ok(n),
            None => Err(DecodeError::InvalidField),
        },
        Some(_) => Err(DecodeError::InvalidField),
    }
}

/// The member `key` as a number of 32 bits.
pub open spec fn u32_field(doc: JsonModel, key: Seq<char>) -> Result<u32, DecodeError> {
    match u64_field(doc, key) {
        Ok(n) => if n <= u32::MAX {
            Ok(n as u32)
        } else {
            Err(DecodeError::InvalidField)
        },
        Err(e) => Err(e),
    }
}

/// The member `key` as a number of 32 bits that may be absent or `null`.
pub open spec fn optional_u32_field(doc: JsonModel, key: Seq<char>) -> Result<
    Option<u32>,
    DecodeError,
> {
    match doc.member(key) {
        None => Ok(None),
        Some(JsonModel::Null) => Ok(None),
        Some(_) => match u32_field(doc, key) {
            Ok(n) => Ok(Some(n)),
            Err(e) => Err(e),
        },
    }
}

/// The member `key` as a text.
pub open spec fn text_field(doc: JsonModel, key: Seq<char>) -> Result<Seq<char>, DecodeError> {
    match doc.member(key) {
        None => Err(DecodeError::MissingField),
        Some(JsonModel::Text(text)) => Ok(text),
        Some(_) => Err(DecodeError::InvalidField),
    }
}

/// The member `sex` of a sender.
pub open spec fn sex_field(doc: JsonModel) -> Result<OneSex, DecodeError> {
    match text_field(doc, "sex"@) {
        Ok(tag) => match sex_of_tag(tag) {
            Some(sex) => Ok(sex),
            None => Err(DecodeError::InvalidField),
        },
        Err(e) => Err(e),
    }
}

/// The member `sub_type` of a private message, which may be absent or `null`.
pub open spec fn sub_type_field(doc: JsonModel) -> Result<Option<OneSubType>, DecodeError> {
    match doc.member("sub_type"@) {
        None => Ok(None),
        Some(JsonModel::Null) => Ok(None),
        Some(JsonModel::Text(tag)) => match sub_type_of_tag(tag) {
            Some(sub_type) => Ok(Some(sub_type)),
            None => Err(DecodeError::InvalidField),
        },
        Some(_) => Err(DecodeError::InvalidField),
    }
}

/// The sender that the object `doc` describes. The members are read in the
/// order `user_id`, `nickname`, `sex`, `age`, and the first that fails decides
/// the error.
pub open spec fn decode_sender(doc: JsonModel) -> Result<SenderModel, DecodeError> {
    let user_id = u64_field(doc, "user_id"@);
    let nickname = text_field(doc, "nickname"@);
    let sex = sex_field(doc);
    let age = optional_u32_field(doc, "age"@);
    if !(doc is Object) {
        Err(DecodeError::InvalidField)
    } else if user_id is Err {
        Err(user_id->Err_0)
    } else if nickname is Err {
        Err(nickname->Err_0)
    } else if sex is Err {
        Err(sex->Err_0)
    } else if age is Err {
        Err(age->Err_0)
    } else {
        Ok(
            SenderModel {
                user_id: user_id->Ok_0,
                nickname: nickname->Ok_0,
                sex: sex->Ok_0,
                age: age->Ok_0,
            },
        )
    }
}

/// The member `sender` of a private message.
pub open spec fn sender_field(doc: JsonModel) -> Result<SenderModel, DecodeError> {
    match doc.member("sender"@) {
        None => Err(DecodeError::MissingField),
        Some(sender) => decode_sender(sender),
    }
}

/// The member `message` of a private message: any value, but present.
pub open spec fn payload_field(doc: JsonModel) -> Result<JsonModel, DecodeError> {
    match doc.member("message"@) {
        None => Err(DecodeError::MissingField),
        Some(payload) => Ok(payload),
    }
}

/// The private message that the object `doc` describes. The members are read
/// in the order `sub_type`, `message_id`, `user_id`, `message`, `raw_message`,
/// `font`, `sender`, and the first that fails decides the error.
pub open spec fn decode_private(doc: JsonModel) -> Result<MessageModel, DecodeError> {
    let sub_type = sub_type_field(doc);
    let message_id = u32_field(doc, "message_id"@);
    let user_id = u64_field(doc, "user_id"@);
    let message = payload_field(doc);
    let raw_message = text_field(doc, "raw_message"@);
    let font = u32_field(doc, "font"@);
    let sender = sender_field(doc);
    if sub_type is Err {
        Err(sub_type->Err_0)
    } else if message_id is Err {
        Err(message_id->Err_0)
    } else if user_id is Err {
        Err(user_id->Err_0)
    } else if message is Err {
        Err(message->Err_0)
    } else if raw_message is Err {
        Err(raw_message->Err_0)
    } else if font is Err {
        Err(font->Err_0)
    } else if sender is Err {
        Err(sender->Err_0)
    } else {
        Ok(
            MessageModel::Private {
                sub_type: sub_type->Ok_0,
                message_id: message_id->Ok_0,
                user_id: user_id->Ok_0,
                message: message->Ok_0,
                raw_message: raw_message->Ok_0,
                font: font->Ok_0,
                sender: sender->Ok_0,
            },
        )
    }
}

/// The message that `doc` describes, by its tag `message_type`: the tag must
/// be the text `private`.
pub open spec fn decode_message(doc: JsonModel) -> Result<MessageModel, DecodeError> {
    match doc.member("message_type"@) {
        None => Err(DecodeError::MissingField),
        Some(JsonModel::Text(tag)) => if tag == "private"@ {
            decode_private(doc)
        } else {
            Err(DecodeError::UnknownMessageType)
        },
        Some(_) => Err(DecodeError::UnknownMessageType),
    }
}

/// The category that `doc` describes, by its tag `post_type`: the tag must be
/// one of the texts `message`, `notice`, `request` and `meta_event`.
pub open spec fn decode_category(doc: JsonModel) -> Result<CategoryModel, DecodeError> {
    match doc.member("post_type"@) {
        None => Err(DecodeError::MissingField),
        Some(JsonModel::Text(tag)) => if tag == "message"@ {
            match decode_message(doc) {
                Ok(content) => Ok(CategoryModel::Message { content }),
                Err(e) => Err(e),
            }
        } else if tag == "notice"@ {
            Ok(CategoryModel::Notice)
        } else if tag == "request"@ {
            Ok(CategoryModel::Request)
        } else if tag == "meta_event"@ {
            Ok(CategoryModel::MetaEvent)
        } else {
            Err(DecodeError::UnknownPostType)
        },
        Some(_) => Err(DecodeError::UnknownPostType),
    }
}

/// The wire event that the document `doc` describes, or why it describes
/// none. The members `time` and `self_id` are read first, then the category.
pub open spec fn decode_event(doc: JsonModel) -> Result<EventModel, DecodeError> {
    let time = u64_field(doc, "time"@);
    let self_id = u64_field(doc, "self_id"@);
    let post_type = decode_category(doc);
    if !(doc is Object) {
        Err(DecodeError::NotAnObject)
    } else if time is Err {
        Err(time->Err_0)
    } else if self_id is Err {
        Err(self_id->Err_0)
    } else if post_type is Err {
        Err(post_type->Err_0)
    } else {
        Ok(EventModel { time: time->Ok_0, self_id: self_id->Ok_0, post_type: post_type->Ok_0 })
    }
}

/// The wire event that the text `text` describes, given what the parser makes
/// of the text.
pub open spec fn decode_parsed(parsed: Option<JsonModel>) -> Result<EventModel, DecodeError> {
    match parsed {
        None => Err(DecodeError::Malformed),
        Some(doc) => decode_event(doc),
    }
}

/// Reads the member `key` as a number of 64 bits.
pub fn read_u64(doc: &Json, key: &str) -> (r: Result<u64, DecodeError>)
    ensures
        r == u64_field(doc@, key@),
{
    match doc.member(key) {
        None => Err(DecodeError::MissingField),
        Some(value) => match value.as_number() {
            None => Err(DecodeError::InvalidField),
            Some(text) => match parse_decimal(text.as_str()) {
                Some(n) => Ok(n),
                None => Err(DecodeError::InvalidField),
            },
        },
    }
}

/// Reads the member `key` as a number of 32 bits.
pub fn read_u32(doc: &Json, key: &str) -> (r: Result<u32, DecodeError>)
    ensures
        r == u32_field(doc@, key@),
{
    match read_u64(doc, key) {
        Ok(n) => if n <= 0xffff_ffff {
            Ok(n as u32)
        } else {
            Err(DecodeError::InvalidField)
        },
        Err(e) => Err(e),
    }
}

/// Reads the member `key` as a number of 32 bits that may be absent or `null`.
pub fn read_optional_u32(doc: &Json, key: &str) -> (r: Result<Option<u32>, DecodeError>)
    ensures
        r == optional_u32_field(doc@, key@),
{
    match doc.member(key) {
        None => Ok(None),
        Some(value) => if value.is_null() {
            Ok(None)
        } else {
            match read_u32(doc, key) {
                Ok(n) => Ok(Some(n)),
                Err(e) => Err(e),
            }
        },
    }
}

/// Reads the member `key` as a text.
pub fn read_text<'a>(doc: &'a Json, key: &str) -> (r: Result<&'a String, DecodeError>)
    ensures
        result_model(r) == text_field(doc@, key@),
{
    match doc.member(key) {
        None => Err(DecodeError::MissingField),
        Some(value) => match value.as_text() {
            Some(text) => Ok(text),
            None => Err(DecodeError::InvalidField),
        },
    }
}

/// Reads the member `sex` of a sender.
pub fn read_sex(doc: &Json) -> (r: Result<OneSex, DecodeError>)
    ensures
        r == sex_field(doc@),
{
    match read_text(doc, "sex") {
        Ok(tag) => match OneSex::from_tag(tag.as_str()) {
            Some(sex) => Ok(sex),
            None => Err(DecodeError::InvalidField),
        },
        Err(e) => Err(e),
    }
}

/// Reads the member `sub_type` of a private message.
pub fn read_sub_type(doc: &Json) -> (r: Result<Option<OneSubType>, DecodeError>)
    ensures
        r == sub_type_field(doc@),
{
    match doc.member("sub_type") {
        None => Ok(None),
        Some(value) => if value.is_null() {
            Ok(None)
        } else {
            match value.as_text() {
                Some(tag) => match OneSubType::from_tag(tag.as_str()) {
                    Some(sub_type) => Ok(Some(sub_type)),
                    None => Err(DecodeError::InvalidField),
                },
                None => Err(DecodeError::InvalidField),
            }
        },
    }
}

impl OnePrivateSender {
    /// Decodes a sender from the object that describes it.
    pub fn from_document(doc: &Json) -> (r: Result<OnePrivateSender, DecodeError>)
        ensures
            result_model(r) == decode_sender(doc@),
    {
        if !doc.is_object() {
            return Err(DecodeError::InvalidField);
        }
        let user_id: u64 = match read_u64(doc, "user_id") {
            Ok(v) => v,
            Err(e) => return Err(e),
        };
        let nickname: String = match read_text(doc, "nickname") {
            Ok(v) => v.clone(),
            Err(e) => return Err(e),
        };
        let sex: OneSex = match read_sex(doc) {
            Ok(v) => v,
            Err(e) => return Err(e),
        };
        let age: Option<u32> = match read_optional_u32(doc, "age") {
            Ok(v) => v,
            Err(e) => return Err(e),
        };
        Ok(OnePrivateSender { user_id, nickname, sex, age })
    }
}

impl OneMessageType {
    /// Decodes the members of a private message.
    fn private_from_document(doc: &Json) -> (r: Result<OneMessageType, DecodeError>)
        ensures
            result_model(r) == decode_private(doc@),
    {
        let sub_type: Option<OneSubType> = match read_sub_type(doc) {
            Ok(v) => v,
            Err(e) => return Err(e),
        };
        let message_id: u32 = match read_u32(doc, "message_id") {
            Ok(v) => v,
            Err(e) => return Err(e),
        };
        let user_id: u64 = match read_u64(doc, "user_id") {
            Ok(v) => v,
            Err(e) => return Err(e),
        };
        let message: Json = match doc.member("message") {
            Some(v) => v.clone(),
            None => return Err(DecodeError::MissingField),
        };
        let raw_message: String = match read_text(doc, "raw_message") {
            Ok(v) => v.clone(),
            Err(e) => return Err(e),
        };
        let font: u32 = match read_u32(doc, "font") {
            Ok(v) => v,
            Err(e) => return Err(e),
        };
        let sender: OnePrivateSender = match doc.member("sender") {
            None => return Err(DecodeError::MissingField),
            Some(v) => match OnePrivateSender::from_document(v) {
                Ok(s) => s,
                Err(e) => return Err(e),
            },
        };
        Ok(
            OneMessageType::Private {
                sub_type,
                message_id,
                user_id,
                message,
                raw_message,
                font,
                sender,
            },
        )
    }

    /// Decodes a message by its tag `message_type`.
    pub fn from_document(doc: &Json) -> (r: Result<OneMessageType, DecodeError>)
        ensures
            result_model(r) == decode_message(doc@),
    {
        match doc.member("message_type") {
            None => Err(DecodeError::MissingField),
            Some(value) => match value.as_text() {
                None => Err(DecodeError::UnknownMessageType),
                Some(tag) => if same_text(tag.as_str(), "private") {
                    OneMessageType::private_from_document(doc)
                } else {
                    Err(DecodeError::UnknownMessageType)
                },
            },
        }
    }
}

impl OneType {
    /// Decodes a category by its tag `post_type`.
    pub fn from_document(doc: &Json) -> (r: Result<OneType, DecodeError>)
        ensures
            result_model(r) == decode_category(doc@),
    {
        match doc.member("post_type") {
            None => Err(DecodeError::MissingField),
            Some(value) => match value.as_text() {
                None => Err(DecodeError::UnknownPostType),
                Some(tag) => if same_text(tag.as_str(), "message") {
                    match OneMessageType::from_document(doc) {
                        Ok(content) => Ok(OneType::Message { content }),
                        Err(e) => Err(e),
                    }
                } else if same_text(tag.as_str(), "notice") {
                    Ok(OneType::Notice { content: OneNotice {  } })
                } else if same_text(tag.as_str(), "request") {
                    Ok(OneType::Request { content: OneRequest {  } })
                } else if same_text(tag.as_str(), "meta_event") {
                    Ok(OneType::MetaEvent { content: OneMetaEvent {  } })
                } else {
                    Err(DecodeError::UnknownPostType)
                },
            },
        }
    }
}

impl OneEvent {
    /// Decodes a wire event from a JSON document.
    pub fn from_document(doc: &Json) -> (r: Result<OneEvent, DecodeError>)
        ensures
            result_model(r) == decode_event(doc@),
    {
        if !doc.is_object() {
            return Err(DecodeError::NotAnObject);
        }
        let time: u64 = match read_u64(doc, "time") {
            Ok(v) => v,
            Err(e) => return Err(e),
        };
        let self_id: u64 = match read_u64(doc, "self_id") {
            Ok(v) => v,
            Err(e) => return Err(e),
        };
        let post_type: OneType = match OneType::from_document(doc) {
            Ok(v) => v,
            Err(e) => return Err(e),
        };
        Ok(OneEvent { time, self_id, post_type })
    }

    /// Decodes a wire event from the text of a frame: the text is parsed as
    /// JSON, and the document is decoded. A text that is no JSON is
    /// `Malformed`.
    pub fn decode(text: &str) -> (r: Result<OneEvent, DecodeError>)
        ensures
            result_model(r) == decode_parsed(parsed_tree(text@)),
    {
        match parse_document(text) {
            None => Err(DecodeError::Malformed),
            Some(doc) => OneEvent::from_document(&doc),
        }
    }
}

/// Whether `tag` is one of the four tags of a category.
pub open spec fn is_post_type(tag: Seq<char>) -> bool {
    tag == "message"@ || tag == "notice"@ || tag == "request"@ || tag == "meta_event"@
}

/// A document in which the tag `post_type` is absent, is no text, or is a
/// text other than the four tags, describes no event.
pub proof fn lemma_unknown_post_type_rejected(doc: JsonModel)
    requires
        !(doc.member("post_type"@) matches Some(JsonModel::Text(tag)) && is_post_type(tag)),
    ensures
        decode_event(doc) is Err,
        decode_category(doc) is Err,
{
}

/// A message in which the tag `message_type` is absent, is no text, or is a
/// text other than `private`, describes no event.
pub proof fn lemma_unknown_message_type_rejected(doc: JsonModel)
    requires
        doc.member("post_type"@) == Some(JsonModel::Text("message"@)),
        doc.member("message_type"@) != Some(JsonModel::Text("private"@)),
    ensures
        decode_event(doc) is Err,
        decode_message(doc) is Err,
{
}

/// A text that is no JSON, or whose document lacks a recognised tag
/// `post_type`, describes no event.
pub proof fn lemma_unrecognised_text_rejected(parsed: Option<JsonModel>)
    requires
        parsed matches Some(doc) ==> !(doc.member("post_type"@) matches Some(JsonModel::Text(tag))
            && is_post_type(tag)),
    ensures
        decode_parsed(parsed) is Err,
        parsed is None ==> decode_parsed(parsed) == Err::<EventModel, DecodeError>(
            DecodeError::Malformed,
        ),
{
}

} // verus!
