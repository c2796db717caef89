use serde_json::Value;
use sithra_onebot::call::{
    begin_call, encode_request, finish_call, handle_response, ApiAction, CallOutcome,
    RouteOutcome, CALL_TIMEOUT_MS,
};
use sithra_onebot::error::OneBotApiError;
use sithra_onebot::response::OneBotResponse;
use sithra_onebot::table::CorrelationTable;
use tokio::sync::oneshot;

fn reply(echo: Option<&str>, data: Value) -> OneBotResponse {
    OneBotResponse {
        status: "ok".to_string(),
        retcode: 0,
        data: Some(data),
        echo: echo.map(|e| e.to_string()),
    }
}

fn message_id_data(id: i64) -> Value {
    let mut m = serde_json::Map::new();
    m.insert("message_id".to_string(), Value::from(id));
    Value::Object(m)
}

#[test]
fn private_message_call_gets_its_message_id() {
    let mut table = CorrelationTable::new();
    let (tx, mut rx) = oneshot::channel();
    let (token, frame) =
        begin_call(&mut table, ApiAction::SendPrivateMsg, "{\"user_id\":\"7\"}", tx).unwrap();
    assert_eq!(token, 1);
    assert_eq!(
        frame,
        "{\"echo\":\"1\",\"action\":\"send_private_msg\",\"params\":{\"user_id\":\"7\"}}"
    );
    assert!(table.is_pending(1));
    let outcome = handle_response(&mut table, reply(Some("1"), message_id_data(42)));
    assert_eq!(outcome, RouteOutcome::Delivered(1));
    assert!(!table.is_pending(1));
    let got = rx.try_recv().unwrap();
    let result = finish_call(&mut table, token, CallOutcome::Replied(got)).unwrap();
    assert_eq!(result.data.unwrap()["message_id"], Value::from(42));
    assert_eq!(result.retcode, 0);
}

#[test]
fn withheld_reply_times_out_and_late_reply_is_dropped() {
    let mut table = CorrelationTable::new();
    let (tx, _rx) = oneshot::channel();
    let (token, _) = begin_call(&mut table, ApiAction::GetMsg, "{}", tx).unwrap();
    assert_eq!(CALL_TIMEOUT_MS, 5000);
    let r = finish_call(&mut table, token, CallOutcome::TimedOut);
    assert_eq!(r.unwrap_err(), OneBotApiError::Timeout);
    assert!(!table.is_pending(token));
    let late = handle_response(&mut table, reply(Some("1"), Value::Null));
    assert_eq!(late, RouteOutcome::UnknownToken);
    assert!(!table.is_pending(token));
}

#[test]
fn replies_in_reverse_order_reach_their_own_callers() {
    let mut table = CorrelationTable::new();
    let (tx1, mut rx1) = oneshot::channel();
    let (tx2, mut rx2) = oneshot::channel();
    let (t1, _) = begin_call(&mut table, ApiAction::SendGroupMsg, "{}", tx1).unwrap();
    let (t2, _) = begin_call(&mut table, ApiAction::SendGroupMsg, "{}", tx2).unwrap();
    assert_eq!((t1, t2), (1, 2));
    assert_eq!(
        handle_response(&mut table, reply(Some("2"), message_id_data(200))),
        RouteOutcome::Delivered(2)
    );
    assert_eq!(
        handle_response(&mut table, reply(Some("1"), message_id_data(100))),
        RouteOutcome::Delivered(1)
    );
    let r1 = finish_call(&mut table, t1, CallOutcome::Replied(rx1.try_recv().unwrap())).unwrap();
    let r2 = finish_call(&mut table, t2, CallOutcome::Replied(rx2.try_recv().unwrap())).unwrap();
    assert_eq!(r1.data.unwrap()["message_id"], Value::from(100));
    assert_eq!(r2.data.unwrap()["message_id"], Value::from(200));
}

#[test]
fn uncorrelatable_frames_leave_calls_alone() {
    let mut table = CorrelationTable::new();
    let (tx, mut rx) = oneshot::channel();
    let (token, _) = begin_call(&mut table, ApiAction::DeleteMsg, "{}", tx).unwrap();
    assert_eq!(handle_response(&mut table, reply(None, Value::Null)), RouteOutcome::NoEcho);
    assert_eq!(
        handle_response(&mut table, reply(Some("not a token"), Value::Null)),
        RouteOutcome::UnknownToken
    );
    assert_eq!(
        handle_response(&mut table, reply(Some("01"), Value::Null)),
        RouteOutcome::UnknownToken
    );
    assert!(table.is_pending(token));
    assert!(rx.try_recv().is_err());
    assert_eq!(
        handle_response(&mut table, reply(Some("1"), Value::Null)),
        RouteOutcome::Delivered(1)
    );
    assert!(rx.try_recv().is_ok());
}

#[test]
fn failed_send_cancels_the_call() {
    let mut table = CorrelationTable::new();
    let (tx, _rx) = oneshot::channel();
    let (token, _) = begin_call(&mut table, ApiAction::SetGroupKick, "{}", tx).unwrap();
    let r = finish_call(&mut table, token, CallOutcome::SendFailed);
    assert_eq!(r.unwrap_err(), OneBotApiError::Closed);
    assert!(!table.is_pending(token));
}

#[test]
fn dropped_slot_reports_channel_error() {
    let mut table = CorrelationTable::new();
    let (tx, _rx) = oneshot::channel();
    let (token, _) = begin_call(&mut table, ApiAction::GetGroupInfo, "{}", tx).unwrap();
    let r = finish_call(&mut table, token, CallOutcome::SlotDropped);
    assert_eq!(r.unwrap_err(), OneBotApiError::Channel);
    assert!(!table.is_pending(token));
}

#[test]
fn complete_twice_has_no_second_effect() {
    let mut table = CorrelationTable::new();
    let (tx, mut rx) = oneshot::channel();
    let token = table.register(tx).unwrap();
    assert!(table.complete(token, reply(Some("1"), Value::from(1))));
    assert!(!table.complete(token, reply(Some("1"), Value::from(2))));
    assert!(!table.is_pending(token));
    assert_eq!(rx.try_recv().unwrap().data, Some(Value::from(1)));
}

#[test]
fn complete_after_cancel_is_a_no_op() {
    let mut table = CorrelationTable::new();
    let (tx, _rx) = oneshot::channel();
    let token = table.register(tx).unwrap();
    assert!(table.cancel(token));
    assert!(!table.cancel(token));
    assert!(!table.complete(token, reply(Some("1"), Value::Null)));
    assert!(!table.is_pending(token));
}

#[test]
fn concurrent_registrations_get_distinct_tokens() {
    let mut table = CorrelationTable::new();
    let mut tokens = Vec::new();
    let mut receivers = Vec::new();
    for _ in 0..100 {
        let (tx, rx) = oneshot::channel();
        receivers.push(rx);
        tokens.push(table.register(tx).unwrap());
    }
    for (i, t) in tokens.iter().enumerate() {
        assert_eq!(*t, i as u64 + 1);
        assert!(table.is_pending(*t));
    }
    let mut sorted = tokens.clone();
    sorted.dedup();
    assert_eq!(sorted.len(), 100);
}

#[test]
fn unknown_token_on_empty_table() {
    let mut table = CorrelationTable::new();
    assert!(!table.is_pending(5));
    assert!(!table.complete(5, reply(Some("5"), Value::Null)));
    assert_eq!(
        handle_response(&mut table, reply(Some("5"), Value::Null)),
        RouteOutcome::UnknownToken
    );
}

#[test]
fn request_frame_for_each_kind_of_action() {
    assert_eq!(
        encode_request(18446744073709551615, ApiAction::CreateForwardMsg, "[]"),
        "{\"echo\":\"18446744073709551615\",\"action\":\"send_forward_msg\",\"params\":[]}"
    );
    assert_eq!(ApiAction::GetGroupMemberInfo.name(), "get_group_member_info");
    assert_eq!(ApiAction::SetFriendAddRequest.name(), "set_friend_add_request");
}

#[test]
fn retryable_errors() {
    assert!(OneBotApiError::Timeout.is_retryable());
    assert!(OneBotApiError::WebSocket("reset".to_string()).is_retryable());
    assert!(!OneBotApiError::Closed.is_retryable());
    assert!(!OneBotApiError::InvalidMessage.is_retryable());
    assert!(!OneBotApiError::Channel.is_retryable());
    assert!(!OneBotApiError::Json("x".to_string()).is_retryable());
}

#[test]
fn shards_issue_disjoint_tokens() {
    let shards = 4u64;
    let mut tables: Vec<CorrelationTable> = (0..shards).map(|i| CorrelationTable::sharded(i, shards)).collect();
    let mut all = Vec::new();
    let mut receivers = Vec::new();
    for round in 0..5 {
        for (i, table) in tables.iter_mut().enumerate() {
            let (tx, rx) = oneshot::channel();
            receivers.push(rx);
            let t = table.register(tx).unwrap();
            assert_eq!(t % shards, i as u64);
            if i == 0 {
                assert_eq!(t, shards * (round + 1));
            } else {
                assert_eq!(t, i as u64 + shards * round);
            }
            all.push(t);
        }
    }
    let mut sorted = all.clone();
    sorted.sort();
    sorted.dedup();
    assert_eq!(sorted.len(), all.len());
    let t = all[6];
    let table = &mut tables[(t % shards) as usize];
    assert_eq!(
        handle_response(table, reply(Some(&t.to_string()), Value::Null)),
        RouteOutcome::Delivered(t)
    );
}

#[test]
fn exhausted_counter_refuses_new_calls() {
    let mut table = CorrelationTable::sharded(1, 1u64 << 63);
    let (tx, _rx) = oneshot::channel();
    assert_eq!(table.register(tx), Some(1));
    let (tx, _rx) = oneshot::channel();
    assert_eq!(table.register(tx), None);
    let (tx, _rx) = oneshot::channel();
    let r = begin_call(&mut table, ApiAction::GetMsg, "{}", tx);
    assert!(matches!(r, Err(OneBotApiError::Internal(_))));
}
