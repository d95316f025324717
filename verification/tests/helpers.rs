use async_jsonrpc_client::error::{Error, ErrorKind};
use async_jsonrpc_client::helpers::{build_request, to_result_from_output, to_results_from_outputs, CallFuture};
use async_jsonrpc_client::json::{find_member, JsonValue};
use async_jsonrpc_client::rpc::{Call, ErrorCode, Failure, Id, MethodCall, Output, Params, RpcError, Success, Version};
use async_jsonrpc_client::Async;

fn text(s: &str) -> JsonValue {
    JsonValue::String(s.to_string())
}

fn method_call(call: Call) -> MethodCall {
    match call {
        Call::MethodCall(mc) => mc,
        other => panic!("not a method call: {:?}", other),
    }
}

#[test]
fn build_request_null_params_are_left_out() {
    let mc = method_call(build_request(1, "eth_blockNumber", JsonValue::Null));
    assert_eq!(mc.jsonrpc, Some(Version::V2));
    assert_eq!(mc.method, "eth_blockNumber");
    assert_eq!(mc.params, Params::Empty);
    assert_eq!(mc.id, Id::Num(1));
}

#[test]
fn build_request_scalar_becomes_one_positional_param() {
    let mc = method_call(build_request(7, "say_hello", text("Tomasz")));
    assert_eq!(mc.params, Params::Array(vec![text("Tomasz")]));
    assert_eq!(mc.id, Id::Num(7));

    let mc = method_call(build_request(8, "flag", JsonValue::Bool(true)));
    assert_eq!(mc.params, Params::Array(vec![JsonValue::Bool(true)]));

    let mc = method_call(build_request(9, "count", JsonValue::Number("42".to_string())));
    assert_eq!(mc.params, Params::Array(vec![JsonValue::Number("42".to_string())]));
}

#[test]
fn build_request_array_is_kept_as_positional_params() {
    let items = vec![JsonValue::Number("1".to_string()), JsonValue::Null, text("x")];
    let mc = method_call(build_request(2, "update", JsonValue::Array(items.clone_like())));
    assert_eq!(mc.params, Params::Array(items));
}

#[test]
fn build_request_object_is_kept_as_named_params() {
    let members = vec![("name".to_string(), text("Tomasz"))];
    let mc = method_call(build_request(3, "say_hello", JsonValue::Object(vec![("name".to_string(), text("Tomasz"))])));
    assert_eq!(mc.params, Params::Object(members));
    assert_eq!(mc.method, "say_hello");
}

#[test]
fn build_request_carries_large_ids() {
    let mc = method_call(build_request(usize::MAX, "m", JsonValue::Null));
    assert_eq!(mc.id, Id::Num(usize::MAX as u64));
}

trait CloneLike {
    fn clone_like(&self) -> Self;
}

impl CloneLike for Vec<JsonValue> {
    fn clone_like(&self) -> Self {
        self.iter().map(copy_value).collect()
    }
}

fn copy_value(v: &JsonValue) -> JsonValue {
    match v {
        JsonValue::Null => JsonValue::Null,
        JsonValue::Bool(b) => JsonValue::Bool(*b),
        JsonValue::Number(n) => JsonValue::Number(n.clone()),
        JsonValue::String(s) => JsonValue::String(s.clone()),
        JsonValue::Array(a) => JsonValue::Array(a.iter().map(copy_value).collect()),
        JsonValue::Object(m) => JsonValue::Object(m.iter().map(|(k, v)| (k.clone(), copy_value(v))).collect()),
    }
}

fn success(id: u64, result: JsonValue) -> Output {
    Output::Success(Success { jsonrpc: Some(Version::V2), result, id: Id::Num(id) })
}

fn failure(id: u64, message: &str) -> Output {
    Output::Failure(Failure {
        jsonrpc: Some(Version::V2),
        error: RpcError { code: ErrorCode::MethodNotFound, message: message.to_string(), data: None },
        id: Id::Num(id),
    })
}

#[test]
fn to_result_from_output_success_gives_result() {
    assert_eq!(to_result_from_output(success(1, text("ok"))), Ok(text("ok")));
}

#[test]
fn to_result_from_output_failure_gives_rpc_error() {
    let r = to_result_from_output(failure(1, "Method not found"));
    match r {
        Err(Error { kind: ErrorKind::Rpc(e) }) => {
            assert_eq!(e.code, ErrorCode::MethodNotFound);
            assert_eq!(e.message, "Method not found");
            assert_eq!(e.data, None);
        },
        other => panic!("unexpected {:?}", other),
    }
}

#[test]
fn to_results_from_outputs_keeps_order() {
    let r = to_results_from_outputs(vec![success(1, text("a")), failure(2, "no"), success(3, JsonValue::Null)]).unwrap();
    assert_eq!(r.len(), 3);
    assert_eq!(r[0], Ok(text("a")));
    assert!(matches!(r[1], Err(Error { kind: ErrorKind::Rpc(_) })));
    assert_eq!(r[2], Ok(JsonValue::Null));
}

#[test]
fn to_results_from_outputs_empty() {
    assert_eq!(to_results_from_outputs(vec![]), Ok(vec![]));
}

#[test]
fn error_codes_have_their_numbers() {
    assert_eq!(ErrorCode::ParseError.code(), -32700);
    assert_eq!(ErrorCode::InvalidRequest.code(), -32600);
    assert_eq!(ErrorCode::MethodNotFound.code(), -32601);
    assert_eq!(ErrorCode::InvalidParams.code(), -32602);
    assert_eq!(ErrorCode::InternalError.code(), -32603);
    assert_eq!(ErrorCode::ServerError(-32000).code(), -32000);
}

#[test]
fn find_member_gives_first_match() {
    let members = vec![
        ("a".to_string(), JsonValue::Null),
        ("b".to_string(), JsonValue::Bool(true)),
        ("b".to_string(), JsonValue::Bool(false)),
    ];
    assert_eq!(find_member(&members, &"b".to_string()), Some(1));
    assert_eq!(find_member(&members, &"a".to_string()), Some(0));
    assert_eq!(find_member(&members, &"c".to_string()), None);
}

#[test]
fn id_duplicate_is_equal() {
    assert_eq!(Id::Str("abc".to_string()).duplicate(), Id::Str("abc".to_string()));
    assert_eq!(Id::Num(5).duplicate(), Id::Num(5));
    assert_eq!(Id::Null.duplicate(), Id::Null);
}

#[test]
fn call_future_decodes_ready_value() {
    let future: CallFuture<u64, ()> = CallFuture::new(());
    let r = future.poll(Ok(Async::Ready(JsonValue::Number("12".to_string()))), |v| match v {
        JsonValue::Number(n) => n.parse::<u64>().map_err(|e| format!("{:?}", e)),
        _ => Err("not a number".to_string()),
    });
    assert!(matches!(r, Ok(Async::Ready(12))));
}

#[test]
fn call_future_decode_failure_is_decoder_error() {
    let future: CallFuture<u64, ()> = CallFuture::new(());
    let r = future.poll(Ok(Async::Ready(JsonValue::Null)), |_| Err("invalid type: null".to_string()));
    match r {
        Err(Error { kind: ErrorKind::Decoder(m) }) => assert_eq!(m, "invalid type: null"),
        other => panic!("unexpected {:?}", other),
    }
}

#[test]
fn call_future_passes_not_ready_and_errors() {
    let future: CallFuture<u64, ()> = CallFuture::new(());
    let r = future.poll(Ok(Async::NotReady), |_| -> Result<u64, String> { panic!("must not decode") });
    assert!(matches!(r, Ok(Async::NotReady)));
    let r = future.poll(Err(Error::new(ErrorKind::Unreachable)), |_| -> Result<u64, String> { panic!("must not decode") });
    assert!(matches!(r, Err(Error { kind: ErrorKind::Unreachable })));
}

#[test]
fn call_future_gives_access_to_inner() {
    let mut future: CallFuture<u64, u32> = CallFuture::new(5);
    *future.inner_mut() += 1;
    assert_eq!(*future.inner_mut(), 6);
}

#[test]
fn error_from_kind_keeps_kind() {
    let e: Error = ErrorKind::Unreachable.into();
    assert_eq!(*e.kind(), ErrorKind::Unreachable);
    let e = Error::new(ErrorKind::Transport("down".to_string()));
    assert_eq!(e.kind, ErrorKind::Transport("down".to_string()));
}
