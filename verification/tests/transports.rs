use async_jsonrpc_client::api::SubscriptionId;
use async_jsonrpc_client::error::{Error, ErrorKind, IoKind};
use async_jsonrpc_client::helpers::{build_request, to_notification_from_slice, to_response_from_slice};
use async_jsonrpc_client::json::JsonValue;
use async_jsonrpc_client::rpc::{Call, Failure, Id, MethodCall, Notification, Output, Params, Request, Response, Success, Version, RpcError, ErrorCode};
use async_jsonrpc_client::transports::shared::{Received, RequestState, Response as Pending};
use async_jsonrpc_client::transports::tcp::{
    batch_request, route_message, single_result, MessageRoute, NotificationRoute, PendingRequests, ResponseRoute, Subscriptions,
};
use async_jsonrpc_client::Async;

fn text(s: &str) -> JsonValue {
    JsonValue::String(s.to_string())
}

fn sub(s: &str) -> SubscriptionId {
    SubscriptionId::new(s.to_string())
}

fn notification(params: Params) -> Notification {
    Notification { jsonrpc: Some(Version::V2), method: "eth_subscription".to_string(), params }
}

fn success(id: Id, result: JsonValue) -> Output {
    Output::Success(Success { jsonrpc: Some(Version::V2), result, id })
}

#[test]
fn subscriptions_insert_get_replace_remove() {
    let mut subs: Subscriptions<u32> = Subscriptions::new();
    assert_eq!(subs.get(&sub("0x1")), None);
    assert_eq!(subs.insert(sub("0x1"), 10), None);
    assert_eq!(subs.insert(sub("0x2"), 20), None);
    assert_eq!(subs.get(&sub("0x1")), Some(&10));
    assert!(subs.contains(&sub("0x2")));
    assert_eq!(subs.insert(sub("0x1"), 11), Some(10));
    assert_eq!(subs.get(&sub("0x1")), Some(&11));
    assert_eq!(subs.remove(&sub("0x1")), Some(11));
    assert_eq!(subs.get(&sub("0x1")), None);
    assert_eq!(subs.remove(&sub("0x1")), None);
    assert_eq!(subs.get(&sub("0x2")), Some(&20));
}

#[test]
fn notification_is_delivered_to_its_subscriber() {
    let mut subs: Subscriptions<u32> = Subscriptions::new();
    subs.insert(sub("0xabc"), 1);
    let n = notification(Params::Object(vec![
        ("subscription".to_string(), text("0xabc")),
        ("result".to_string(), JsonValue::Number("5".to_string())),
    ]));
    match subs.route_notification(n) {
        NotificationRoute::Deliver { subscription, result } => {
            assert_eq!(subscription.as_str(), "0xabc");
            assert_eq!(result, JsonValue::Number("5".to_string()));
        },
        other => panic!("unexpected {:?}", other),
    }
}

#[test]
fn notification_members_in_any_order() {
    let mut subs: Subscriptions<u32> = Subscriptions::new();
    subs.insert(sub("s"), 1);
    let n = notification(Params::Object(vec![
        ("result".to_string(), JsonValue::Bool(true)),
        ("other".to_string(), JsonValue::Null),
        ("subscription".to_string(), text("s")),
    ]));
    match subs.route_notification(n) {
        NotificationRoute::Deliver { subscription, result } => {
            assert_eq!(subscription.as_str(), "s");
            assert_eq!(result, JsonValue::Bool(true));
        },
        other => panic!("unexpected {:?}", other),
    }
}

#[test]
fn notification_for_unknown_subscription() {
    let subs: Subscriptions<u32> = Subscriptions::new();
    let n = notification(Params::Object(vec![
        ("subscription".to_string(), text("0xdead")),
        ("result".to_string(), JsonValue::Null),
    ]));
    match subs.route_notification(n) {
        NotificationRoute::UnknownSubscription(s) => assert_eq!(s.as_str(), "0xdead"),
        other => panic!("unexpected {:?}", other),
    }
}

#[test]
fn notification_without_string_subscription_is_unsupported() {
    let mut subs: Subscriptions<u32> = Subscriptions::new();
    subs.insert(sub("1"), 1);
    let n = notification(Params::Object(vec![
        ("subscription".to_string(), JsonValue::Number("1".to_string())),
        ("result".to_string(), JsonValue::Null),
    ]));
    assert_eq!(subs.route_notification(n), NotificationRoute::Unsupported);
    let n = notification(Params::Object(vec![("subscription".to_string(), text("1"))]));
    assert_eq!(subs.route_notification(n), NotificationRoute::Unsupported);
    let n = notification(Params::Object(vec![("result".to_string(), text("1"))]));
    assert_eq!(subs.route_notification(n), NotificationRoute::Unsupported);
}

#[test]
fn notification_without_named_params_is_ignored() {
    let subs: Subscriptions<u32> = Subscriptions::new();
    assert_eq!(subs.route_notification(notification(Params::Array(vec![text("x")]))), NotificationRoute::Ignored);
    assert_eq!(subs.route_notification(notification(Params::Empty)), NotificationRoute::Ignored);
}

#[test]
fn notification_after_unsubscribe_finds_no_subscriber() {
    let mut subs: Subscriptions<u32> = Subscriptions::new();
    subs.insert(sub("a"), 1);
    subs.remove(&sub("a"));
    let n = notification(Params::Object(vec![
        ("subscription".to_string(), text("a")),
        ("result".to_string(), JsonValue::Null),
    ]));
    assert!(matches!(subs.route_notification(n), NotificationRoute::UnknownSubscription(_)));
}

#[test]
fn response_goes_to_its_request_once() {
    let mut pending: PendingRequests<&str> = PendingRequests::new();
    assert_eq!(pending.insert(1, "first"), None);
    assert_eq!(pending.insert(2, "second"), None);
    match pending.route_response(Ok(Response::Single(success(Id::Num(2), text("r"))))) {
        ResponseRoute::Deliver { pending: p, results } => {
            assert_eq!(p, "second");
            assert_eq!(results, Ok(vec![Ok(text("r"))]));
        },
        other => panic!("unexpected {:?}", other),
    }
    assert!(matches!(
        pending.route_response(Ok(Response::Single(success(Id::Num(2), text("r"))))),
        ResponseRoute::UnknownRequest(2)
    ));
    assert_eq!(pending.remove(1), Some("first"));
    assert_eq!(pending.remove(1), None);
}

#[test]
fn batch_response_goes_by_first_id() {
    let mut pending: PendingRequests<u8> = PendingRequests::new();
    pending.insert(5, 50);
    let failure = Output::Failure(Failure {
        jsonrpc: Some(Version::V2),
        error: RpcError { code: ErrorCode::InternalError, message: "boom".to_string(), data: None },
        id: Id::Num(6),
    });
    let response = Response::Batch(vec![success(Id::Num(5), text("a")), failure]);
    match pending.route_response(Ok(response)) {
        ResponseRoute::Deliver { pending: p, results } => {
            assert_eq!(p, 50);
            let results = results.unwrap();
            assert_eq!(results.len(), 2);
            assert_eq!(results[0], Ok(text("a")));
            assert!(matches!(results[1], Err(Error { kind: ErrorKind::Rpc(_) })));
        },
        other => panic!("unexpected {:?}", other),
    }
}

#[test]
fn unparsed_response_goes_to_id_zero() {
    let mut pending: PendingRequests<u8> = PendingRequests::new();
    assert!(matches!(
        pending.route_response(Err(Error::new(ErrorKind::InvalidResponse("bad".to_string())))),
        ResponseRoute::UnknownRequest(0)
    ));
    pending.insert(0, 9);
    match pending.route_response(Err(Error::new(ErrorKind::InvalidResponse("bad".to_string())))) {
        ResponseRoute::Deliver { pending: p, results } => {
            assert_eq!(p, 9);
            assert_eq!(results, Ok(vec![]));
        },
        other => panic!("unexpected {:?}", other),
    }
}

#[test]
fn response_with_string_id_is_unsupported() {
    let mut pending: PendingRequests<u8> = PendingRequests::new();
    pending.insert(1, 1);
    match pending.route_response(Ok(Response::Single(success(Id::Str("1".to_string()), JsonValue::Null)))) {
        ResponseRoute::UnsupportedId(id) => assert_eq!(id, Id::Str("1".to_string())),
        other => panic!("unexpected {:?}", other),
    }
    assert_eq!(pending.remove(1), Some(1));
}

#[test]
fn built_request_is_answered_through_its_id() {
    let call = build_request(42, "eth_getBalance", JsonValue::Null);
    let id = match &call {
        Call::MethodCall(MethodCall { id, .. }) => id.duplicate(),
        _ => panic!("not a method call"),
    };
    let mut pending: PendingRequests<&str> = PendingRequests::new();
    pending.insert(42, "balance");
    match pending.route_response(Ok(Response::Single(success(id, text("0x10"))))) {
        ResponseRoute::Deliver { pending: p, .. } => assert_eq!(p, "balance"),
        other => panic!("unexpected {:?}", other),
    }
}

#[test]
fn single_result_takes_first() {
    assert_eq!(single_result(vec![Ok(text("a")), Ok(text("b"))]), Ok(text("a")));
}

#[test]
fn single_result_of_nothing_is_invalid_response() {
    match single_result(vec![]) {
        Err(Error { kind: ErrorKind::InvalidResponse(m) }) => assert_eq!(m, "Expected single, got batch."),
        other => panic!("unexpected {:?}", other),
    }
}

#[test]
fn batch_request_goes_by_first_id() {
    let (id, request) = batch_request(vec![
        (3, build_request(3, "a", JsonValue::Null)),
        (4, build_request(4, "b", JsonValue::Null)),
    ]);
    assert_eq!(id, 3);
    match request {
        Request::Batch(calls) => {
            assert_eq!(calls.len(), 2);
            assert_eq!(calls[0], build_request(3, "a", JsonValue::Null));
            assert_eq!(calls[1], build_request(4, "b", JsonValue::Null));
        },
        other => panic!("unexpected {:?}", other),
    }
}

#[test]
fn empty_batch_request_has_id_zero() {
    let (id, request) = batch_request(vec![]);
    assert_eq!(id, 0);
    assert_eq!(request, Request::Batch(vec![]));
}

#[test]
fn failed_send_is_reported_once_then_waits() {
    let mut response = Pending::new(1, Err(Error::new(ErrorKind::Transport("Error sending request".to_string()))), |v: JsonValue| -> Result<JsonValue, Error> { Ok(v) });
    let r = response.poll(|| -> Received<JsonValue> { panic!("must not poll the channel") });
    assert!(matches!(r, Err(Error { kind: ErrorKind::Transport(_) })));
    assert_eq!(*response.state(), RequestState::Sending(None));
    let r = response.poll(|| Received::NotReady);
    assert!(matches!(r, Ok(Async::NotReady)));
    assert_eq!(*response.state(), RequestState::WaitingForResponse);
    assert_eq!(response.id(), 1);
}

#[test]
fn sent_request_extracts_answer() {
    let mut response = Pending::new(2, Ok(()), |v: Vec<Result<JsonValue, Error>>| single_result(v));
    let r = response.poll(|| Received::Ready(Ok(vec![Ok(text("x"))])));
    assert!(matches!(r, Ok(Async::Ready(JsonValue::String(ref s))) if s == "x"));
    assert_eq!(*response.state(), RequestState::WaitingForResponse);
}

#[test]
fn extract_error_is_reported() {
    let mut response = Pending::new(2, Ok(()), |v: Vec<Result<JsonValue, Error>>| single_result(v));
    let r = response.poll(|| Received::Ready(Ok(vec![])));
    assert!(matches!(r, Err(Error { kind: ErrorKind::InvalidResponse(_) })));
}

#[test]
fn closed_channel_times_out() {
    let mut response = Pending::new(3, Ok(()), |v: JsonValue| -> Result<JsonValue, Error> { Ok(v) });
    let r = response.poll(|| Received::Canceled);
    assert!(matches!(r, Err(Error { kind: ErrorKind::Io(IoKind::TimedOut) })));
}

#[test]
fn error_instead_of_answer_is_passed_on() {
    let mut response = Pending::new(3, Ok(()), |v: JsonValue| -> Result<JsonValue, Error> { Ok(v) });
    let r = response.poll(|| Received::Ready(Err(Error::new(ErrorKind::Internal))));
    assert!(matches!(r, Err(Error { kind: ErrorKind::Internal })));
}

#[test]
fn message_that_reads_as_notification_is_never_a_response() {
    let mut subs: Subscriptions<u8> = Subscriptions::new();
    subs.insert(sub("0x9"), 1);
    let mut pending: PendingRequests<u8> = PendingRequests::new();
    pending.insert(0, 7);
    let message = br#"{"jsonrpc":"2.0","method":"eth_subscription","params":{"subscription":"0x9","result":{"n":1}}}"#;
    match route_message(&subs, &mut pending, message) {
        MessageRoute::Notification(NotificationRoute::Deliver { subscription, result }) => {
            assert_eq!(subscription.as_str(), "0x9");
            assert_eq!(result, JsonValue::Object(vec![("n".to_string(), JsonValue::Number("1".to_string()))]));
        },
        other => panic!("unexpected {:?}", other),
    }
    assert_eq!(pending.remove(0), Some(7));
}

#[test]
fn message_that_is_no_notification_is_read_as_response() {
    let subs: Subscriptions<u8> = Subscriptions::new();
    let mut pending: PendingRequests<u8> = PendingRequests::new();
    pending.insert(3, 30);
    let message = br#"{"jsonrpc":"2.0","result":false,"id":3}"#;
    match route_message(&subs, &mut pending, message) {
        MessageRoute::Response(ResponseRoute::Deliver { pending: p, results }) => {
            assert_eq!(p, 30);
            assert_eq!(results, Ok(vec![Ok(JsonValue::Bool(false))]));
        },
        other => panic!("unexpected {:?}", other),
    }
    assert_eq!(pending.remove(3), None);
}

#[test]
fn batch_message_goes_by_first_id() {
    let subs: Subscriptions<u8> = Subscriptions::new();
    let mut pending: PendingRequests<u8> = PendingRequests::new();
    pending.insert(5, 50);
    let message = br#"[{"jsonrpc":"2.0","result":"a","id":5},{"jsonrpc":"2.0","error":{"code":-32601,"message":"Method not found"},"id":6}]"#;
    match route_message(&subs, &mut pending, message) {
        MessageRoute::Response(ResponseRoute::Deliver { pending: p, results }) => {
            assert_eq!(p, 50);
            let results = results.unwrap();
            assert_eq!(results[0], Ok(text("a")));
            match &results[1] {
                Err(Error { kind: ErrorKind::Rpc(e) }) => {
                    assert_eq!(e.code, ErrorCode::MethodNotFound);
                    assert_eq!(e.message, "Method not found");
                },
                other => panic!("unexpected {:?}", other),
            }
        },
        other => panic!("unexpected {:?}", other),
    }
}

#[test]
fn garbage_message_goes_to_id_zero() {
    let subs: Subscriptions<u8> = Subscriptions::new();
    let mut pending: PendingRequests<u8> = PendingRequests::new();
    assert!(matches!(
        route_message(&subs, &mut pending, b"not json"),
        MessageRoute::Response(ResponseRoute::UnknownRequest(0))
    ));
}

#[test]
fn parsing_messages() {
    match to_response_from_slice(br#"{"jsonrpc":"2.0","result":[1,"x",null],"id":"abc"}"#) {
        Ok(Response::Single(Output::Success(s))) => {
            assert_eq!(s.jsonrpc, Some(Version::V2));
            assert_eq!(s.id, Id::Str("abc".to_string()));
            assert_eq!(s.result, JsonValue::Array(vec![JsonValue::Number("1".to_string()), text("x"), JsonValue::Null]));
        },
        other => panic!("unexpected {:?}", other),
    }
    assert!(matches!(
        to_response_from_slice(b"{"),
        Err(Error { kind: ErrorKind::InvalidResponse(ref m) }) if !m.is_empty()
    ));
    match to_notification_from_slice(br#"{"jsonrpc":"2.0","method":"m","params":[true]}"#) {
        Ok(n) => {
            assert_eq!(n.method, "m");
            assert_eq!(n.params, Params::Array(vec![JsonValue::Bool(true)]));
        },
        other => panic!("unexpected {:?}", other),
    }
    match to_notification_from_slice(br#"{"jsonrpc":"2.0","method":"m"}"#) {
        Ok(n) => assert_eq!(n.params, Params::Empty),
        other => panic!("unexpected {:?}", other),
    }
    assert!(matches!(
        to_notification_from_slice(br#"{"jsonrpc":"2.0","result":1,"id":1}"#),
        Err(Error { kind: ErrorKind::InvalidResponse(_) })
    ));
}

#[test]
fn polled_request_never_becomes_unreachable() {
    let mut response = Pending::new(4, Err(Error::new(ErrorKind::Internal)), |v: JsonValue| -> Result<JsonValue, Error> { Ok(v) });
    for _ in 0..5 {
        let r = response.poll(|| Received::NotReady);
        assert!(!matches!(r, Err(Error { kind: ErrorKind::Unreachable })));
        assert_ne!(*response.state(), RequestState::Done);
    }
}

#[test]
fn unsubscribing_twice_is_unsubscribing_once() {
    let mut subs: Subscriptions<u8> = Subscriptions::new();
    subs.insert(sub("a"), 1);
    subs.insert(sub("b"), 2);
    assert_eq!(subs.remove(&sub("a")), Some(1));
    assert_eq!(subs.remove(&sub("a")), None);
    assert_eq!(subs.remove(&sub("never")), None);
    assert_eq!(subs.get(&sub("b")), Some(&2));
    assert!(!subs.contains(&sub("a")));
}
