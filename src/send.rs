//! Sending a host message: which action, to which target, with which segments.

use vstd::prelude::*;
use crate::call::ApiAction;
use crate::echo::{decimal, echo_text};
use crate::event::{Channel, ChannelType};
use crate::message::{InternalSegment, OneBotSegment, segments_to_wire, wire_segment_of};

verus! {

/// The parameters of a send-message call.
#[derive(Debug, PartialEq, Eq)]
pub struct OutgoingMessage {
    pub action: ApiAction,
    /// The user (private) or group id, in decimal.
    pub target: String,
    pub message: Vec<InternalSegment>,
}

/// A private channel is sent to with `send_private_msg` and a group channel
/// with `send_group_msg`, addressed by the channel id in decimal, carrying the
/// wire forms of the segments in order.
pub fn outgoing_message(channel: &Channel, segments: Vec<OneBotSegment>) -> (r: OutgoingMessage)
    ensures
        r.action == match channel.channel_type {
            ChannelType::Private => ApiAction::SendPrivateMsg,
            ChannelType::Group => ApiAction::SendGroupMsg,
        },
        r.target@ == decimal(channel.id as nat),
        r.message@.len() == segments@.len(),
        forall|i: int| 0 <= i < segments@.len() ==> wire_segment_of(#[trigger] segments@[i], r.message@[i]),
{
    let action = match channel.channel_type {
        ChannelType::Private => ApiAction::SendPrivateMsg,
        ChannelType::Group => ApiAction::SendGroupMsg,
    };
    OutgoingMessage { action, target: echo_text(channel.id), message: segments_to_wire(segments) }
}

} // verus!
