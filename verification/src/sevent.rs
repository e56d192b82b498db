//! The unified event model that the translator produces: an event with the
//! channel, user and message that it concerns.

use vstd::prelude::*;

verus! {

/// The kinds of unified events that this adapter produces.
#[derive(Debug, Clone, Copy, PartialEq, Eq, Structural)]
pub enum SEventType {
    MessageCreated,
}

/// The kinds of channels.
#[derive(Debug, Clone, Copy, PartialEq, Eq, Structural)]
pub enum ChannelType {
    Text,
    Direct,
    Category,
    Voice,
}

/// A place where messages are exchanged.
#[derive(Debug, Clone, PartialEq, Eq)]
pub struct Channel {
    pub id: String,
    pub ty: ChannelType,
    pub name: Option<String>,
    pub parent_id: Option<String>,
}

/// An account.
#[derive(Debug, Clone, PartialEq, Eq)]
pub struct User {
    pub id: String,
    pub name: Option<String>,
    pub nick: Option<String>,
    pub avatar: Option<String>,
    pub is_bot: Option<bool>,
}

/// A message, with the channel and the user it belongs to.
#[derive(Debug, Clone, PartialEq, Eq)]
pub struct Message {
    pub id: String,
    pub content: String,
    pub channel: Option<Channel>,
    pub user: Option<User>,
    /// Seconds since the epoch.
    pub created_at: Option<u64>,
    pub updated_at: Option<u64>,
}

/// A unified event.
#[derive(Debug, Clone, PartialEq, Eq)]
pub struct SEventContent {
    pub id: u64,
    pub ty: SEventType,
    pub platform: String,
    pub self_id: String,
    /// Milliseconds since the epoch.
    pub timestamp: u128,
    pub channel: Option<Channel>,
    pub message: Option<Message>,
    pub operator: Option<User>,
    pub user: Option<User>,
}

/// A unified event with the adapter that it comes from, as it is published.
#[derive(Debug, Clone, PartialEq, Eq)]
pub struct SEvent {
    pub content: SEventContent,
    pub from_adapter: u64,
}

/// The model of an optional text.
pub open spec fn text_model(text: Option<String>) -> Option<Seq<char>> {
    match text {
        Some(t) => Some(t@),
        None => None,
    }
}

/// The model of a [`Channel`].
pub struct ChannelModel {
    pub id: Seq<char>,
    pub ty: ChannelType,
    pub name: Option<Seq<char>>,
    pub parent_id: Option<Seq<char>>,
}

/// The model of a [`User`].
pub struct UserModel {
    pub id: Seq<char>,
    pub name: Option<Seq<char>>,
    pub nick: Option<Seq<char>>,
    pub avatar: Option<Seq<char>>,
    pub is_bot: Option<bool>,
}

/// The model of a [`Message`].
pub struct MessageContentModel {
    pub id: Seq<char>,
    pub content: Seq<char>,
    pub channel: Option<ChannelModel>,
    pub user: Option<UserModel>,
    pub created_at: Option<u64>,
    pub updated_at: Option<u64>,
}

/// The model of a [`SEventContent`].
pub struct SEventModel {
    pub id: u64,
    pub ty: SEventType,
    pub platform: Seq<char>,
    pub self_id: Seq<char>,
    pub timestamp: u128,
    pub channel: Option<ChannelModel>,
    pub message: Option<MessageContentModel>,
    pub operator: Option<UserModel>,
    pub user: Option<UserModel>,
}

/// The model of a [`SEvent`].
pub struct PublishedModel {
    pub content: SEventModel,
    pub from_adapter: u64,
}

impl View for Channel {
    type V = ChannelModel;

    open spec fn view(&self) -> ChannelModel {
        ChannelModel {
            id: self.id@,
            ty: self.ty,
            name: text_model(self.name),
            parent_id: text_model(self.parent_id),
        }
    }
}

impl View for User {
    type V = UserModel;

    open spec fn view(&self) -> UserModel {
        UserModel {
            id: self.id@,
            name: text_model(self.name),
            nick: text_model(self.nick),
            avatar: text_model(self.avatar),
            is_bot: self.is_bot,
        }
    }
}

/// The model of an optional channel.
pub open spec fn channel_model(channel: Option<Channel>) -> Option<ChannelModel> {
    match channel {
        Some(c) => Some(c@),
        None => None,
    }
}

/// The model of an optional user.
pub open spec fn user_model(user: Option<User>) -> Option<UserModel> {
    match user {
        Some(u) => Some(u@),
        None => None,
    }
}

impl View for Message {
    type V = MessageContentModel;

    open spec fn view(&self) -> MessageContentModel {
        MessageContentModel {
            id: self.id@,
            content: self.content@,
            channel: channel_model(self.channel),
            user: user_model(self.user),
            created_at: self.created_at,
            updated_at: self.updated_at,
        }
    }
}

/// The model of an optional message.
pub open spec fn message_model(message: Option<Message>) -> Option<MessageContentModel> {
    match message {
        Some(m) => Some(m@),
        None => None,
    }
}

impl View for SEventContent {
    type V = SEventModel;

    open spec fn view(&self) -> SEventModel {
        SEventModel {
            id: self.id,
            ty: self.ty,
            platform: self.platform@,
            self_id: self.self_id@,
            timestamp: self.timestamp,
            channel: channel_model(self.channel),
            message: message_model(self.message),
            operator: user_model(self.operator),
            user: user_model(self.user),
        }
    }
}

impl View for SEvent {
    type V = PublishedModel;

    open spec fn view(&self) -> PublishedModel {
        PublishedModel { content: self.content@, from_adapter: self.from_adapter }
    }
}

impl SEventType {
    /// The name of the kind, as the unified protocol writes it.
    pub fn name(&self) -> (r: &'static str)
        ensures
            r@ == "message-created"@,
    {
        match self {
            SEventType::MessageCreated => "message-created",
        }
    }
}

} // verus!
