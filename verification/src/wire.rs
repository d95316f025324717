//! The JSON-RPC messages in the form that `serde_json` and `jsonrpc_core`
//! read them in, and their conversion, one for one, into the library's
//! values.

use vstd::prelude::*;
use crate::json::JsonValue;
use crate::rpc;
use jsonrpc_core::{
    Error as WireError, ErrorCode as WireErrorCode, Id as WireId, Notification as WireNotification,
    Output as WireOutput, Params as WireParams, Response as WireResponse, Version as WireVersion,
};

verus! {

/// A JSON value as `serde_json` reads it.
#[verifier::external_type_specification]
#[verifier::external_body]
pub struct ExWireValue(serde_json::Value);

/// A response as `jsonrpc_core` reads it.
#[verifier::external_type_specification]
#[verifier::external_body]
pub struct ExWireResponse(WireResponse);

/// One answer as `jsonrpc_core` reads it.
#[verifier::external_type_specification]
#[verifier::external_body]
pub struct ExWireOutput(WireOutput);

/// A notification as `jsonrpc_core` reads it.
#[verifier::external_type_specification]
#[verifier::external_body]
pub struct ExWireNotification(WireNotification);

/// Call parameters as `jsonrpc_core` reads them.
#[verifier::external_type_specification]
#[verifier::external_body]
pub struct ExWireParams(WireParams);

/// A call id as `jsonrpc_core` reads it.
#[verifier::external_type_specification]
#[verifier::external_body]
pub struct ExWireId(WireId);

/// A protocol version as `jsonrpc_core` reads it.
#[verifier::external_type_specification]
#[verifier::external_body]
pub struct ExWireVersion(WireVersion);

/// A server's error as `jsonrpc_core` reads it.
#[verifier::external_type_specification]
#[verifier::external_body]
pub struct ExWireError(WireError);

/// The kind of a server's error as `jsonrpc_core` reads it.
#[verifier::external_type_specification]
#[verifier::external_body]
pub struct ExWireErrorCode(WireErrorCode);

/// Converts a `serde_json::Value` into a `JsonValue`, variant by variant; a
/// number becomes the text that `serde_json::Number`'s `Display` writes.
#[verifier::external_body]
pub(crate) fn value_from_wire(value: serde_json::Value) -> JsonValue {
    match value {
        serde_json::Value::Null => JsonValue::Null,
        serde_json::Value::Bool(b) => JsonValue::Bool(b),
        serde_json::Value::Number(n) => JsonValue::Number(n.to_string()),
        serde_json::Value::String(s) => JsonValue::String(s),
        serde_json::Value::Array(a) => JsonValue::Array(a.into_iter().map(value_from_wire).collect()),
        serde_json::Value::Object(m) => JsonValue::Object(m.into_iter().map(|(k, v)| (k, value_from_wire(v))).collect()),
    }
}

/// Converts `WireParams` into `rpc::Params`, variant by variant.
#[verifier::external_body]
pub(crate) fn params_from_wire(params: WireParams) -> rpc::Params {
    match params {
        WireParams::None => rpc::Params::Empty,
        WireParams::Array(a) => rpc::Params::Array(a.into_iter().map(value_from_wire).collect()),
        WireParams::Map(m) => rpc::Params::Object(m.into_iter().map(|(k, v)| (k, value_from_wire(v))).collect()),
    }
}

/// Converts a `WireVersion` into an `rpc::Version`.
#[verifier::external_body]
pub(crate) fn version_from_wire(version: Option<WireVersion>) -> Option<rpc::Version> {
    match version {
        Some(WireVersion::V2) => Some(rpc::Version::V2),
        None => None,
    }
}

/// Converts a `WireId` into an `rpc::Id`, variant by variant.
#[verifier::external_body]
pub(crate) fn id_from_wire(id: WireId) -> rpc::Id {
    match id {
        WireId::Null => rpc::Id::Null,
        WireId::Num(n) => rpc::Id::Num(n),
        WireId::Str(s) => rpc::Id::Str(s),
    }
}

/// Converts a `WireErrorCode` into an `rpc::ErrorCode`, variant by variant.
#[verifier::external_body]
pub(crate) fn error_code_from_wire(code: WireErrorCode) -> rpc::ErrorCode {
    match code {
        WireErrorCode::ParseError => rpc::ErrorCode::ParseError,
        WireErrorCode::InvalidRequest => rpc::ErrorCode::InvalidRequest,
        WireErrorCode::MethodNotFound => rpc::ErrorCode::MethodNotFound,
        WireErrorCode::InvalidParams => rpc::ErrorCode::InvalidParams,
        WireErrorCode::InternalError => rpc::ErrorCode::InternalError,
        WireErrorCode::ServerError(c) => rpc::ErrorCode::ServerError(c),
    }
}

/// Converts a `WireError` into an `rpc::RpcError`, field by field.
#[verifier::external_body]
pub(crate) fn rpc_error_from_wire(error: WireError) -> rpc::RpcError {
    rpc::RpcError {
        code: error_code_from_wire(error.code),
        message: error.message,
        data: error.data.map(value_from_wire),
    }
}

/// Converts a `WireOutput` into an `rpc::Output`, field by field.
#[verifier::external_body]
pub(crate) fn output_from_wire(output: WireOutput) -> rpc::Output {
    match output {
        WireOutput::Success(s) => rpc::Output::Success(rpc::Success {
            jsonrpc: version_from_wire(s.jsonrpc), result: value_from_wire(s.result), id: id_from_wire(s.id),
        }),
        WireOutput::Failure(f) => rpc::Output::Failure(rpc::Failure {
            jsonrpc: version_from_wire(f.jsonrpc), error: rpc_error_from_wire(f.error), id: id_from_wire(f.id),
        }),
    }
}

/// Converts a `WireResponse` into an `rpc::Response`, variant by variant.
#[verifier::external_body]
pub(crate) fn response_from_wire(response: WireResponse) -> rpc::Response {
    match response {
        WireResponse::Single(o) => rpc::Response::Single(output_from_wire(o)),
        WireResponse::Batch(os) => rpc::Response::Batch(os.into_iter().map(output_from_wire).collect()),
    }
}

/// Converts a `WireNotification` into an `rpc::Notification`, field by field.
#[verifier::external_body]
pub(crate) fn notification_from_wire(notification: WireNotification) -> rpc::Notification {
    rpc::Notification {
        jsonrpc: version_from_wire(notification.jsonrpc),
        method: notification.method,
        params: params_from_wire(notification.params),
    }
}

} // verus!
