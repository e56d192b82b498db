//! The wire model: events as the gateway sends them, and the tags by which
//! their JSON form tells the variants apart.

use crate::json::{Json, JsonModel};
use vstd::prelude::*;
use vstd::string::*;

verus! {

/// One decoded inbound frame.
#[derive(Debug, Clone, PartialEq, Eq)]
pub struct OneEvent {
    /// Seconds since the epoch.
    pub time: u64,
    /// The account that received the event.
    pub self_id: u64,
    /// The category of the event, with its payload.
    pub post_type: OneType,
}

/// The four categories of events, told apart by the tag `post_type`.
#[derive(Debug, Clone, PartialEq, Eq)]
pub enum OneType {
    Message { content: OneMessageType },
    Notice { content: OneNotice },
    Request { content: OneRequest },
    MetaEvent { content: OneMetaEvent },
}

/// The kinds of message events, told apart by the tag `message_type`.
#[derive(Debug, Clone, PartialEq, Eq)]
pub enum OneMessageType {
    Private {
        sub_type: Option<OneSubType>,
        message_id: u32,
        user_id: u64,
        /// The structured payload, carried as it came.
        message: Json,
        /// The message as plain text.
        raw_message: String,
        font: u32,
        sender: OnePrivateSender,
    },
}

/// Who sent a private message.
#[derive(Debug, Clone, PartialEq, Eq)]
pub struct OnePrivateSender {
    pub user_id: u64,
    pub nickname: String,
    pub sex: OneSex,
    pub age: Option<u32>,
}

/// The sex that a sender's profile states.
#[derive(Debug, Clone, Copy, PartialEq, Eq, Structural)]
pub enum OneSex {
    Male,
    Female,
    Unknown,
}

/// How a private conversation came about.
#[derive(Debug, Clone, Copy, PartialEq, Eq, Structural)]
pub enum OneSubType {
    Friend,
    Group,
    Other,
}

/// The payload of a notice; nothing of it is read.
#[derive(Debug, Clone, Copy, PartialEq, Eq, Structural)]
pub struct OneNotice {}

/// The payload of a request; nothing of it is read.
#[derive(Debug, Clone, Copy, PartialEq, Eq, Structural)]
pub struct OneRequest {}

/// The payload of a meta event; nothing of it is read.
#[derive(Debug, Clone, Copy, PartialEq, Eq, Structural)]
pub struct OneMetaEvent {}

/// The model of a [`OnePrivateSender`].
pub struct SenderModel {
    pub user_id: u64,
    pub nickname: Seq<char>,
    pub sex: OneSex,
    pub age: Option<u32>,
}

/// The model of a [`OneMessageType`].
pub enum MessageModel {
    Private {
        sub_type: Option<OneSubType>,
        message_id: u32,
        user_id: u64,
        message: JsonModel,
        raw_message: Seq<char>,
        font: u32,
        sender: SenderModel,
    },
}

/// The model of a [`OneType`].
pub enum CategoryModel {
    Message { content: MessageModel },
    Notice,
    Request,
    MetaEvent,
}

/// The model of a [`OneEvent`].
pub struct EventModel {
    pub time: u64,
    pub self_id: u64,
    pub post_type: CategoryModel,
}

impl View for OnePrivateSender {
    type V = SenderModel;

    open spec fn view(&self) -> SenderModel {
        SenderModel {
            user_id: self.user_id,
            nickname: self.nickname@,
            sex: self.sex,
            age: self.age,
        }
    }
}

impl View for OneMessageType {
    type V = MessageModel;

    open spec fn view(&self) -> MessageModel {
        match self {
            OneMessageType::Private {
                sub_type,
                message_id,
                user_id,
                message,
                raw_message,
                font,
                sender,
            } => MessageModel::Private {
                sub_type: *sub_type,
                message_id: *message_id,
                user_id: *user_id,
                message: message@,
                raw_message: raw_message@,
                font: *font,
                sender: sender@,
            },
        }
    }
}

impl View for OneType {
    type V = CategoryModel;

    open spec fn view(&self) -> CategoryModel {
        match self {
            OneType::Message { content } => CategoryModel::Message { content: content@ },
            OneType::Notice { .. } => CategoryModel::Notice,
            OneType::Request { .. } => CategoryModel::Request,
            OneType::MetaEvent { .. } => CategoryModel::MetaEvent,
        }
    }
}

impl View for OneEvent {
    type V = EventModel;

    open spec fn view(&self) -> EventModel {
        EventModel { time: self.time, self_id: self.self_id, post_type: self.post_type@ }
    }
}

/// Whether two texts are the same.
pub fn same_text(a: &str, b: &str) -> (r: bool)
    ensures
        r == (a@ == b@),
{
    String::from_str(a) == String::from_str(b)
}

/// The sex that the tag `tag` names.
pub open spec fn sex_of_tag(tag: Seq<char>) -> Option<OneSex> {
    if tag == "male"@ {
        Some(OneSex::Male)
    } else if tag == "female"@ {
        Some(OneSex::Female)
    } else if tag == "unknown"@ {
        Some(OneSex::Unknown)
    } else {
        None
    }
}

/// The tag that names `sex`.
pub open spec fn tag_of_sex(sex: OneSex) -> Seq<char> {
    match sex {
        OneSex::Male => "male"@,
        OneSex::Female => "female"@,
        OneSex::Unknown => "unknown"@,
    }
}

/// The kind of private conversation that the tag `tag` names.
pub open spec fn sub_type_of_tag(tag: Seq<char>) -> Option<OneSubType> {
    if tag == "friend"@ {
        Some(OneSubType::Friend)
    } else if tag == "group"@ {
        Some(OneSubType::Group)
    } else if tag == "other"@ {
        Some(OneSubType::Other)
    } else {
        None
    }
}

/// The tag that names `sub_type`.
pub open spec fn tag_of_sub_type(sub_type: OneSubType) -> Seq<char> {
    match sub_type {
        OneSubType::Friend => "friend"@,
        OneSubType::Group => "group"@,
        OneSubType::Other => "other"@,
    }
}

impl OneSex {
    /// Reads a tag; a text that is none of the three tags names no sex.
    pub fn from_tag(tag: &str) -> (r: Option<OneSex>)
        ensures
            r == sex_of_tag(tag@),
    {
        if same_text(tag, "male") {
            Some(OneSex::Male)
        } else if same_text(tag, "female") {
            Some(OneSex::Female)
        } else if same_text(tag, "unknown") {
            Some(OneSex::Unknown)
        } else {
            None
        }
    }

    /// The tag of this value.
    pub fn tag(&self) -> (r: &'static str)
        ensures
            r@ == tag_of_sex(*self),
    {
        match self {
            OneSex::Male => "male",
            OneSex::Female => "female",
            OneSex::Unknown => "unknown",
        }
    }
}

impl OneSubType {
    /// Reads a tag; a text that is none of the three tags names no kind.
    pub fn from_tag(tag: &str) -> (r: Option<OneSubType>)
        ensures
            r == sub_type_of_tag(tag@),
    {
        if same_text(tag, "friend") {
            Some(OneSubType::Friend)
        } else if same_text(tag, "group") {
            Some(OneSubType::Group)
        } else if same_text(tag, "other") {
            Some(OneSubType::Other)
        } else {
            None
        }
    }

    /// The tag of this value.
    pub fn tag(&self) -> (r: &'static str)
        ensures
            r@ == tag_of_sub_type(*self),
    {
        match self {
            OneSubType::Friend => "friend",
            OneSubType::Group => "group",
            OneSubType::Other => "other",
        }
    }
}

/// The tag of a sex names that sex.
pub proof fn lemma_sex_tag_reads_back(sex: OneSex)
    ensures
        sex_of_tag(tag_of_sex(sex)) == Some(sex),
{
    reveal_strlit("male");
    reveal_strlit("female");
    reveal_strlit("unknown");
    assert("male"@.len() == 4 && "female"@.len() == 6 && "unknown"@.len() == 7);
}

/// The tag of a kind of private conversation names that kind.
pub proof fn lemma_sub_type_tag_reads_back(sub_type: OneSubType)
    ensures
        sub_type_of_tag(tag_of_sub_type(sub_type)) == Some(sub_type),
{
    reveal_strlit("friend");
    reveal_strlit("group");
    reveal_strlit("other");
    assert("friend"@.len() == 6 && "group"@[0] == 'g' && "other"@[0] == 'o');
}

} // verus!
