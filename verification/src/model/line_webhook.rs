//! The body of a LINE webhook call: a destination and a list of events.

use vstd::prelude::*;

verus! {

#[derive(Debug)]
pub struct Webhook {
    pub destination: String,
    pub events: Vec<EventType>,
}

#[derive(Debug)]
pub enum EventType {
    Message(MessageEvent),
    Follow(FollowEvent),
    Unfollow(UnfollowEvent),
}

#[derive(Debug)]
pub struct MessageEvent {
    pub reply_token: String,
    pub mode: String,
    pub timestamp: i64,
    pub source: Option<SourceType>,
    pub webhook_event_id: String,
    pub delivery_context: DeliveryContext,
    pub message: MessageType,
}

#[derive(Debug)]
pub struct FollowEvent {
    pub reply_token: String,
    pub mode: String,
    pub timestamp: i64,
    pub source: Option<SourceType>,
    pub webhook_event_id: String,
    pub delivery_context: DeliveryContext,
    pub follow: Follow,
}

#[derive(Debug)]
pub struct UnfollowEvent {
    pub mode: String,
    pub timestamp: i64,
    pub source: Option<SourceType>,
    pub webhook_event_id: String,
    pub delivery_context: DeliveryContext,
}

#[derive(Debug)]
pub enum SourceType {
    User(UserSource),
    Group(GroupSource),
    Room(RoomSource),
}

#[derive(Debug)]
pub struct UserSource {
    pub user_id: String,
}

#[derive(Debug)]
pub struct GroupSource {
    pub group_id: String,
    pub user_id: Option<String>,
}

#[derive(Debug)]
pub struct RoomSource {
    pub room_id: String,
    pub user_id: Option<String>,
}

#[derive(Debug)]
pub struct DeliveryContext {
    pub is_redelivery: bool,
}

#[derive(Debug)]
pub enum MessageType {
    Text(TextMessage),
}

#[derive(Debug)]
pub struct TextMessage {
    pub id: String,
    pub quote_token: String,
    pub text: String,
    pub emojis: Option<Vec<Emoji>>,
    pub mention: Option<Mention>,
    pub quoted_message_id: Option<String>,
}

/// A LINE emoji inside a text: where it stands and which one it is.
#[derive(Debug, Clone)]
pub struct Emoji {
    pub index: usize,
    pub product_id: String,
    pub emoji_id: String,
}

/// The contents of an emoji.
pub struct EmojiView {
    pub index: usize,
    pub product_id: Seq<char>,
    pub emoji_id: Seq<char>,
}

impl View for Emoji {
    type V = EmojiView;

    open spec fn view(&self) -> EmojiView {
        EmojiView { index: self.index, product_id: self.product_id@, emoji_id: self.emoji_id@ }
    }
}

/// The contents of an optional list of emojis.
pub open spec fn emojis_view(emojis: Option<Vec<Emoji>>) -> Option<Seq<EmojiView>> {
    match emojis {
        Some(list) => Some(list@.map_values(|e: Emoji| e@)),
        None => None,
    }
}

#[derive(Debug)]
pub struct Mention {
    pub mentionees: Vec<Mentionee>,
}

#[derive(Debug)]
pub struct Mentionee {
    pub index: usize,
    pub length: usize,
    pub mentionee_type: String,
    pub user_id: Option<String>,
}

#[derive(Debug)]
pub struct Follow {
    pub is_unblocked: bool,
}

} // verus!
