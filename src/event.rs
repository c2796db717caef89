//! Unsolicited message events, and their conversion into the host's shape.

use vstd::prelude::*;
use vstd::string::StringExecFns;
use crate::config::OneBotGenericId;
use crate::message::{InternalSegment, OneBotSegment, host_segment_of, segments_to_host};

verus! {

/// Who sent a message, as far as the event says.
#[derive(Debug, PartialEq, Eq)]
pub struct MessageSender {
    pub nickname: Option<String>,
    pub card: Option<String>,
}

#[derive(Debug, PartialEq, Eq)]
pub struct InternalPrivateMessage {
    pub message_id: i32,
    pub user_id: u64,
    pub message: Vec<InternalSegment>,
    pub sender: MessageSender,
}

#[derive(Debug, PartialEq, Eq)]
pub struct InternalGroupMessage {
    pub message_id: i32,
    pub user_id: u64,
    pub group_id: u64,
    pub message: Vec<InternalSegment>,
    pub sender: MessageSender,
}

#[derive(Debug, PartialEq, Eq)]
pub enum InternalMessageEvent {
    Private(InternalPrivateMessage),
    Group(InternalGroupMessage),
}

#[derive(Debug, Clone, Copy, PartialEq, Eq)]
pub enum ChannelType {
    Private,
    Group,
}

#[derive(Debug, PartialEq, Eq)]
pub struct Channel {
    pub id: u64,
    pub channel_type: ChannelType,
}

#[derive(Debug, PartialEq, Eq)]
pub struct User {
    pub id: u64,
    pub name: String,
    pub card: Option<String>,
}

/// A message in the host's form: its id and its segments.
#[derive(Debug, PartialEq, Eq)]
pub struct OneBotMessage {
    pub id: Option<i32>,
    pub segments: Vec<OneBotSegment>,
}

impl OneBotMessage {
    pub fn new(id: Option<i32>, segments: Vec<OneBotSegment>) -> (r: Self)
        ensures
            r.id == id,
            r.segments == segments,
    {
        OneBotMessage { id, segments }
    }

    pub fn id(&self) -> (r: Option<i32>)
        ensures
            r == self.id,
    {
        self.id
    }
}

/// A message event ready for the host.
#[derive(Debug, PartialEq, Eq)]
pub struct MessageEvent {
    /// The adapter instance the event came through.
    pub generic_id: OneBotGenericId,
    pub channel: Channel,
    pub user: User,
    pub message: OneBotMessage,
}

/// The message with id `message_id` made of the host forms of `segments`.
pub fn build_onebot_message(message_id: i32, segments: Vec<InternalSegment>) -> (r: OneBotMessage)
    ensures
        r.id == Some(message_id),
        r.segments@.len() == segments@.len(),
        forall|i: int| 0 <= i < segments@.len() ==> host_segment_of(#[trigger] segments@[i], r.segments@[i]),
{
    OneBotMessage::new(Some(message_id), segments_to_host(segments))
}

/// A user whose name is the nickname, or "Unknown" when there is none.
pub fn build_user(user_id: u64, nickname: Option<String>, card: Option<String>) -> (r: User)
    ensures
        r.id == user_id,
        r.card == card,
        match nickname {
            Some(n) => r.name == n,
            None => r.name@ == "Unknown"@,
        },
{
    let name = match nickname {
        Some(n) => n,
        None => String::from_str("Unknown"),
    };
    User { id: user_id, name, card }
}

/// The host event for a message event: a private message comes from the
/// sender's own channel and has no card; a group message comes from its
/// group's channel with the sender's card.
pub fn to_host_event(generic_id: &OneBotGenericId, event: InternalMessageEvent) -> (r: MessageEvent)
    ensures
        r.generic_id.self_id@ == generic_id.self_id@,
        match event {
            InternalMessageEvent::Private(m) => {
                &&& r.channel == (Channel { id: m.user_id, channel_type: ChannelType::Private })
                &&& r.user.id == m.user_id
                &&& r.user.card is None
                &&& match m.sender.nickname {
                    Some(n) => r.user.name == n,
                    None => r.user.name@ == "Unknown"@,
                }
                &&& r.message.id == Some(m.message_id)
                &&& r.message.segments@.len() == m.message@.len()
                &&& forall|i: int| 0 <= i < m.message@.len() ==> host_segment_of(#[trigger] m.message@[i], r.message.segments@[i])
            },
            InternalMessageEvent::Group(m) => {
                &&& r.channel == (Channel { id: m.group_id, channel_type: ChannelType::Group })
                &&& r.user.id == m.user_id
                &&& r.user.card == m.sender.card
                &&& match m.sender.nickname {
                    Some(n) => r.user.name == n,
                    None => r.user.name@ == "Unknown"@,
                }
                &&& r.message.id == Some(m.message_id)
                &&& r.message.segments@.len() == m.message@.len()
                &&& forall|i: int| 0 <= i < m.message@.len() ==> host_segment_of(#[trigger] m.message@[i], r.message.segments@[i])
            },
        },
{
    match event {
        InternalMessageEvent::Private(m) => {
            let message = build_onebot_message(m.message_id, m.message);
            let user = build_user(m.user_id, m.sender.nickname, None);
            MessageEvent { generic_id: OneBotGenericId { self_id: generic_id.self_id.clone() }, channel: Channel { id: m.user_id, channel_type: ChannelType::Private }, user, message }
        },
        InternalMessageEvent::Group(m) => {
            let message = build_onebot_message(m.message_id, m.message);
            let user = build_user(m.user_id, m.sender.nickname, m.sender.card);
            MessageEvent { generic_id: OneBotGenericId { self_id: generic_id.self_id.clone() }, channel: Channel { id: m.group_id, channel_type: ChannelType::Group }, user, message }
        },
    }
}

} // verus!
