//! The translator: from a wire event to the unified event, with the channel,
//! the user and the message wrapper that the wire format leaves implicit.

use crate::decimal::{decimal, decimal_string, lemma_decimal_injective};
use crate::event::{
    CategoryModel, EventModel, MessageModel, OneEvent, OneMessageType, OnePrivateSender, OneType,
};
use crate::sevent::{
    Channel, ChannelModel, ChannelType, Message, MessageContentModel, SEventContent, SEventModel,
    SEventType, User, UserModel,
};
use vstd::prelude::*;
use vstd::string::*;

verus! {

/// Why a wire event has no unified form.
#[derive(Debug, Clone, Copy, PartialEq, Eq, Structural)]
pub enum TranslationError {
    /// The event is well formed, but of a category or a kind of message that
    /// the translator does not handle.
    Unsupported,
}

impl TranslationError {
    /// The reason in words.
    pub fn reason(&self) -> (r: &'static str)
        ensures
            r@ == "unknown message type"@,
    {
        match self {
            TranslationError::Unsupported => "unknown message type",
        }
    }
}

/// A result with its success value replaced by that value's model.
pub open spec fn translated_model(r: Result<SEventContent, TranslationError>) -> Result<
    SEventModel,
    TranslationError,
> {
    match r {
        Ok(event) => Ok(event@),
        Err(e) => Err(e),
    }
}

/// The name of this protocol family in unified events.
pub open spec fn platform_name() -> Seq<char> {
    "onebot11"@
}

/// The identifier of the private channel with the user `user_id`.
pub open spec fn private_channel_id(user_id: u64) -> Seq<char> {
    "private-"@ + decimal(user_id as nat)
}

/// The channel of the private conversation with a user: a text channel named
/// after the user, without a parent.
pub open spec fn private_channel(user_id: u64, nickname: Seq<char>) -> ChannelModel {
    ChannelModel {
        id: private_channel_id(user_id),
        ty: ChannelType::Text,
        name: Some(nickname),
        parent_id: None,
    }
}

/// The user behind a sender: name and nick are both the nickname; nothing is
/// known of an avatar or of being a bot.
pub open spec fn sender_user(user_id: u64, nickname: Seq<char>) -> UserModel {
    UserModel {
        id: decimal(user_id as nat),
        name: Some(nickname),
        nick: Some(nickname),
        avatar: None,
        is_bot: None,
    }
}

/// The unified event of a message received at `time` (in seconds) by the
/// account `self_id`.
pub open spec fn translate_message(content: MessageModel, time: u64, self_id: u64) -> SEventModel {
    match content {
        MessageModel::Private { message_id, user_id, raw_message, sender, .. } => {
            let channel = private_channel(user_id, sender.nickname);
            let user = sender_user(user_id, sender.nickname);
            SEventModel {
                id: message_id as u64,
                ty: SEventType::MessageCreated,
                platform: platform_name(),
                self_id: decimal(self_id as nat),
                timestamp: (time * 1000) as u128,
                channel: Some(channel),
                message: Some(
                    MessageContentModel {
                        id: decimal(message_id as nat),
                        content: raw_message,
                        channel: Some(channel),
                        user: Some(user),
                        created_at: Some(time),
                        updated_at: None,
                    },
                ),
                operator: Some(user),
                user: Some(user),
            }
        },
    }
}

/// The unified event of a category received at `time` by `self_id`: that of
/// its message, and none for a notice, a request or a meta event.
pub open spec fn translate_category(content: CategoryModel, time: u64, self_id: u64) -> Result<
    SEventModel,
    TranslationError,
> {
    match content {
        CategoryModel::Message { content } => Ok(translate_message(content, time, self_id)),
        _ => Err(TranslationError::Unsupported),
    }
}

/// The unified event of a wire event.
pub open spec fn translate_event(event: EventModel) -> Result<SEventModel, TranslationError> {
    translate_category(event.post_type, event.time, event.self_id)
}

/// What can be turned into a unified event, given when and by which account
/// it was received.
pub trait IntoSEvent: Sized + View {
    /// The unified event that this value stands for, or why it has none.
    spec fn sevent(model: Self::V, time: u64, self_id: u64) -> Result<SEventModel, TranslationError>;

    /// Translates the value. Nothing but the arguments is read, and nothing
    /// is changed.
    fn try_into_sevent(self, time: u64, self_id: u64) -> (r: Result<
        SEventContent,
        TranslationError,
    >)
        ensures
            translated_model(r) == Self::sevent(self@, time, self_id),
    ;
}

/// Builds the channel of the private conversation with a user.
fn make_private_channel(user_id: u64, nickname: &String) -> (r: Channel)
    ensures
        r@ == private_channel(user_id, nickname@),
{
    let id: String = String::from_str("private-").concat(decimal_string(user_id).as_str());
    Channel { id, ty: ChannelType::Text, name: Some(nickname.clone()), parent_id: None }
}

/// Builds the user behind a sender.
fn make_sender_user(user_id: u64, nickname: &String) -> (r: User)
    ensures
        r@ == sender_user(user_id, nickname@),
{
    User {
        id: decimal_string(user_id),
        name: Some(nickname.clone()),
        nick: Some(nickname.clone()),
        avatar: None,
        is_bot: None,
    }
}

impl IntoSEvent for OneMessageType {
    open spec fn sevent(model: MessageModel, time: u64, self_id: u64) -> Result<
        SEventModel,
        TranslationError,
    > {
        Ok(translate_message(model, time, self_id))
    }

    /// Translates a message. Every private message has a unified form, so the
    /// result is never an error.
    fn try_into_sevent(self, time: u64, self_id: u64) -> (r: Result<
        SEventContent,
        TranslationError,
    >) {
        match self {
            OneMessageType::Private {
                sub_type: _,
                message_id,
                user_id,
                message: _,
                raw_message,
                font: _,
                sender,
            } => {
                let channel: Channel = make_private_channel(user_id, &sender.nickname);
                let user: User = make_sender_user(user_id, &sender.nickname);
                let in_message: Channel = make_private_channel(user_id, &sender.nickname);
                let author: User = make_sender_user(user_id, &sender.nickname);
                let operator: User = make_sender_user(user_id, &sender.nickname);
                let timestamp: u128 = (time as u128) * 1000;
                Ok(
                    SEventContent {
                        id: message_id as u64,
                        ty: SEventType::MessageCreated,
                        platform: String::from_str("onebot11"),
                        self_id: decimal_string(self_id),
                        timestamp,
                        channel: Some(channel),
                        message: Some(
                            Message {
                                id: decimal_string(message_id as u64),
                                content: raw_message,
                                channel: Some(in_message),
                                user: Some(author),
                                created_at: Some(time),
                                updated_at: None,
                            },
                        ),
                        operator: Some(operator),
                        user: Some(user),
                    },
                )
            },
        }
    }
}

impl IntoSEvent for OneType {
    open spec fn sevent(model: CategoryModel, time: u64, self_id: u64) -> Result<
        SEventModel,
        TranslationError,
    > {
        translate_category(model, time, self_id)
    }

    /// Translates a category: a message by its own translation, anything else
    /// is unsupported.
    fn try_into_sevent(self, time: u64, self_id: u64) -> (r: Result<
        SEventContent,
        TranslationError,
    >) {
        match self {
            OneType::Message { content } => content.try_into_sevent(time, self_id),
            _ => Err(TranslationError::Unsupported),
        }
    }
}

impl OneEvent {
    /// Translates the event into its unified form. Only a private message has
    /// one; every other event is `Unsupported`, and nothing partial is ever
    /// returned.
    pub fn translate(self) -> (r: Result<SEventContent, TranslationError>)
        ensures
            translated_model(r) == translate_event(self@),
    {
        let time: u64 = self.time;
        let self_id: u64 = self.self_id;
        self.post_type.try_into_sevent(time, self_id)
    }
}

/// The identifiers that a translation derives: the channel is `private-`
/// followed by the sender's number, the user is the sender's number and the
/// message is the message's number, each in decimal notation.
pub proof fn lemma_derived_identifiers(content: MessageModel, time: u64, self_id: u64)
    ensures
        translate_message(content, time, self_id).channel->0.id == "private-"@ + decimal(
            content->user_id as nat,
        ),
        translate_message(content, time, self_id).user->0.id == decimal(content->user_id as nat),
        translate_message(content, time, self_id).message->0.id == decimal(
            content->message_id as nat,
        ),
{
}

/// Stable derivation: two private messages from the same user, whenever and
/// by whichever account they were received, translate to the same channel
/// identifier and the same user identifier.
pub proof fn lemma_same_user_same_identifiers(
    a: MessageModel,
    a_time: u64,
    a_self: u64,
    b: MessageModel,
    b_time: u64,
    b_self: u64,
)
    requires
        a->user_id == b->user_id,
    ensures
        translate_message(a, a_time, a_self).channel->0.id == translate_message(
            b,
            b_time,
            b_self,
        ).channel->0.id,
        translate_message(a, a_time, a_self).user->0.id == translate_message(
            b,
            b_time,
            b_self,
        ).user->0.id,
{
}

/// Unique derivation: private messages from different users translate to
/// different channel identifiers and different user identifiers.
pub proof fn lemma_distinct_users_distinct_identifiers(
    a: MessageModel,
    a_time: u64,
    a_self: u64,
    b: MessageModel,
    b_time: u64,
    b_self: u64,
)
    requires
        a->user_id != b->user_id,
    ensures
        translate_message(a, a_time, a_self).channel->0.id != translate_message(
            b,
            b_time,
            b_self,
        ).channel->0.id,
        translate_message(a, a_time, a_self).user->0.id != translate_message(
            b,
            b_time,
            b_self,
        ).user->0.id,
{
    let x = decimal(a->user_id as nat);
    let y = decimal(b->user_id as nat);
    let prefix = "private-"@;
    if x == y {
        lemma_decimal_injective(a->user_id as nat, b->user_id as nat);
    }
    if prefix + x == prefix + y {
        assert((prefix + x).subrange(prefix.len() as int, (prefix + x).len() as int) =~= x);
        assert((prefix + y).subrange(prefix.len() as int, (prefix + y).len() as int) =~= y);
    }
}

/// An event has a unified form exactly when it is a message; a notice, a
/// request and a meta event are unsupported.
pub proof fn lemma_only_messages_translate(event: EventModel)
    ensures
        translate_event(event) is Ok <==> event.post_type is Message,
        !(event.post_type is Message) ==> translate_event(event) == Err::<
            SEventModel,
            TranslationError,
        >(TranslationError::Unsupported),
{
}

} // verus!
