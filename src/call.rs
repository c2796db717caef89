//! One API call from start to end: framing the request, routing responses to
//! their waiting callers, and settling the call on each way it can end.

use vstd::prelude::*;
use vstd::string::StringExecFns;
use crate::echo::{decimal, echo_text, parse_echo, lemma_decimal_injective};
use crate::error::OneBotApiError;
use crate::response::OneBotResponse;
use crate::table::CorrelationTable;
use tokio::sync::oneshot::Sender;

verus! {

/// How long a caller waits for its response, in milliseconds.
pub const CALL_TIMEOUT_MS: u64 = 5000;

/// The actions of the API catalog, each with its name on the wire.
#[derive(Debug, Clone, Copy, PartialEq, Eq)]
pub enum ApiAction {
    SendPrivateMsg,
    SendGroupMsg,
    DeleteMsg,
    GetMsg,
    SetGroupKick,
    SetGroupBan,
    SetGroupAdmin,
    SetGroupCard,
    SetGroupLeave,
    SetFriendAddRequest,
    SetGroupAddRequest,
    GetStrangerInfo,
    GetGroupInfo,
    GetGroupMemberInfo,
    GetGroupMemberList,
    CreateForwardMsg,
}

pub open spec fn action_name(a: ApiAction) -> Seq<char> {
    match a {
        ApiAction::SendPrivateMsg => "send_private_msg"@,
        ApiAction::SendGroupMsg => "send_group_msg"@,
        ApiAction::DeleteMsg => "delete_msg"@,
        ApiAction::GetMsg => "get_msg"@,
        ApiAction::SetGroupKick => "set_group_kick"@,
        ApiAction::SetGroupBan => "set_group_ban"@,
        ApiAction::SetGroupAdmin => "set_group_admin"@,
        ApiAction::SetGroupCard => "set_group_card"@,
        ApiAction::SetGroupLeave => "set_group_leave"@,
        ApiAction::SetFriendAddRequest => "set_friend_add_request"@,
        ApiAction::SetGroupAddRequest => "set_group_add_request"@,
        ApiAction::GetStrangerInfo => "get_stranger_info"@,
        ApiAction::GetGroupInfo => "get_group_info"@,
        ApiAction::GetGroupMemberInfo => "get_group_member_info"@,
        ApiAction::GetGroupMemberList => "get_group_member_list"@,
        ApiAction::CreateForwardMsg => "send_forward_msg"@,
    }
}

impl ApiAction {
    /// The action's name on the wire.
    pub fn name(&self) -> (r: &'static str)
        ensures
            r@ == action_name(*self),
    {
        match self {
            ApiAction::SendPrivateMsg => "send_private_msg",
            ApiAction::SendGroupMsg => "send_group_msg",
            ApiAction::DeleteMsg => "delete_msg",
            ApiAction::GetMsg => "get_msg",
            ApiAction::SetGroupKick => "set_group_kick",
            ApiAction::SetGroupBan => "set_group_ban",
            ApiAction::SetGroupAdmin => "set_group_admin",
            ApiAction::SetGroupCard => "set_group_card",
            ApiAction::SetGroupLeave => "set_group_leave",
            ApiAction::SetFriendAddRequest => "set_friend_add_request",
            ApiAction::SetGroupAddRequest => "set_group_add_request",
            ApiAction::GetStrangerInfo => "get_stranger_info",
            ApiAction::GetGroupInfo => "get_group_info",
            ApiAction::GetGroupMemberInfo => "get_group_member_info",
            ApiAction::GetGroupMemberList => "get_group_member_list",
            ApiAction::CreateForwardMsg => "send_forward_msg",
        }
    }
}

/// The outbound text frame `{"echo":"<echo>","action":"<action>","params":<params>}`.
pub open spec fn request_frame(echo: Seq<char>, action: Seq<char>, params: Seq<char>) -> Seq<char> {
    "{\"echo\":\""@ + echo + "\",\"action\":\""@ + action + "\",\"params\":"@ + params + "}"@
}

/// Frames a request: `params_json` is the JSON text of the action's parameters.
pub fn encode_request(echo: u64, action: ApiAction, params_json: &str) -> (r: String)
    ensures
        r@ == request_frame(decimal(echo as nat), action_name(action), params_json@),
{
    let mut s = String::from_str("{\"echo\":\"");
    let e = echo_text(echo);
    s.append(e.as_str());
    s.append("\",\"action\":\"");
    s.append(action.name());
    s.append("\",\"params\":");
    s.append(params_json);
    s.append("}");
    s
}

/// What became of one response envelope read off the call connection.
#[derive(Debug, Clone, Copy, PartialEq, Eq)]
pub enum RouteOutcome {
    /// The envelope carried no echo and cannot be matched to a call.
    NoEcho,
    /// The echo names no outstanding call (late, duplicated or foreign).
    UnknownToken,
    /// The envelope went to the caller waiting on this token.
    Delivered(u64),
}

/// Routes a response envelope to the call that waits for it. An envelope
/// that matches no outstanding call is dropped and changes nothing.
pub fn handle_response(table: &mut CorrelationTable, resp: OneBotResponse) -> (r: RouteOutcome)
    requires
        old(table).wf(),
    ensures
        final(table).wf(),
        final(table).issued() == old(table).issued(),
        final(table).next_token() == old(table).next_token(),
        final(table).stride() == old(table).stride(),
        (r is NoEcho) == (resp.echo is None),
        r matches RouteOutcome::Delivered(t) ==> {
            &&& resp.echo matches Some(e) && e@ == decimal(t as nat)
            &&& old(table).pending().contains(t)
            &&& final(table).slots() == old(table).slots().remove(t)
            &&& final(table).handed() == old(table).handed().push((old(table).slot_of(t), resp))
        },
        r is UnknownToken ==> {
            &&& resp.echo matches Some(e) && forall|t: u64| #[trigger]
                old(table).pending().contains(t) ==> e@ != decimal(t as nat)
        },
        !(r is Delivered) ==> {
            &&& final(table).slots() == old(table).slots()
            &&& final(table).handed() == old(table).handed()
        },
{
    let token = match &resp.echo {
        None => {
            return RouteOutcome::NoEcho;
        },
        Some(e) => parse_echo(e.as_str()),
    };
    match token {
        None => RouteOutcome::UnknownToken,
        Some(t) => {
            if table.complete(t, resp) {
                RouteOutcome::Delivered(t)
            } else {
                proof {
                    assert(table.slots() =~= old(table).slots());
                    assert forall|u: u64| #[trigger] old(table).pending().contains(u) implies
                        resp.echo->Some_0@ != decimal(u as nat) by {
                        lemma_decimal_injective(t as nat, u as nat);
                    }
                }
                RouteOutcome::UnknownToken
            }
        },
    }
}

/// Starts a call: takes a fresh token, files `slot` under it, and frames the
/// request. The frame must be handed to the outbound queue only after this
/// returns, so a fast reply always finds its entry.
pub fn begin_call(
    table: &mut CorrelationTable,
    action: ApiAction,
    params_json: &str,
    slot: Sender<OneBotResponse>,
) -> (r: Result<(u64, String), OneBotApiError>)
    requires
        old(table).wf(),
    ensures
        final(table).wf(),
        match r {
            Ok((t, frame)) => {
                &&& t == old(table).next_token()
                &&& !old(table).issued().contains(t)
                &&& final(table).slots() == old(table).slots().insert(t, slot)
                &&& final(table).issued() == old(table).issued().insert(t)
                &&& t % old(table).stride() == old(table).residue()
                &&& final(table).next_token() == t + old(table).stride()
                &&& frame@ == request_frame(decimal(t as nat), action_name(action), params_json@)
            },
            Err(e) => {
                &&& e is Internal
                &&& old(table).next_token() > u64::MAX - old(table).stride()
                &&& final(table).slots() == old(table).slots()
                &&& final(table).issued() == old(table).issued()
                &&& final(table).next_token() == old(table).next_token()
            },
        },
        final(table).handed() == old(table).handed(),
        final(table).stride() == old(table).stride(),
        final(table).residue() == old(table).residue(),
{
    match table.register(slot) {
        Some(t) => {
            let frame = encode_request(t, action, params_json);
            Ok((t, frame))
        },
        None => Err(OneBotApiError::Internal(String::from_str("echo tokens exhausted"))),
    }
}

/// How the wait for a call's response ended.
#[derive(Debug)]
pub enum CallOutcome {
    /// The response arrived through the completion slot.
    Replied(OneBotResponse),
    /// The frame could not be handed to the outbound queue.
    SendFailed,
    /// The deadline passed first.
    TimedOut,
    /// The completion slot was dropped without a response.
    SlotDropped,
}

/// Settles a call: whatever the outcome, the token no longer has an entry
/// afterwards; the outcome decides the result.
pub fn finish_call(table: &mut CorrelationTable, token: u64, outcome: CallOutcome) -> (r: Result<
    OneBotResponse,
    OneBotApiError,
>)
    requires
        old(table).wf(),
    ensures
        final(table).wf(),
        final(table).slots() == old(table).slots().remove(token),
        !final(table).pending().contains(token),
        final(table).handed() == old(table).handed(),
        final(table).issued() == old(table).issued(),
        final(table).next_token() == old(table).next_token(),
        match outcome {
            CallOutcome::Replied(resp) => r == Ok::<OneBotResponse, OneBotApiError>(resp),
            CallOutcome::SendFailed => r == Err::<OneBotResponse, OneBotApiError>(OneBotApiError::Closed),
            CallOutcome::TimedOut => r == Err::<OneBotResponse, OneBotApiError>(OneBotApiError::Timeout),
            CallOutcome::SlotDropped => r == Err::<OneBotResponse, OneBotApiError>(OneBotApiError::Channel),
        },
{
    let _ = table.cancel(token);
    match outcome {
        CallOutcome::Replied(resp) => Ok(resp),
        CallOutcome::SendFailed => Err(OneBotApiError::Closed),
        CallOutcome::TimedOut => Err(OneBotApiError::Timeout),
        CallOutcome::SlotDropped => Err(OneBotApiError::Channel),
    }
}

} // verus!
