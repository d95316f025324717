//! The JSON-RPC 2.0 message types.

use vstd::prelude::*;
use crate::json::JsonValue;

verus! {

/// The protocol version a message declares.
#[derive(Debug, Clone, Copy, PartialEq, Eq, Structural)]
pub enum Version {
    V2,
}

/// The id of a request, as it travels on the wire.
#[derive(Debug, PartialEq)]
pub enum Id {
    Null,
    Num(u64),
    Str(String),
}

impl Id {
    /// A copy of this id.
    pub fn duplicate(&self) -> (r: Id)
        ensures
            r == *self,
    {
        match self {
            Id::Null => Id::Null,
            Id::Num(n) => Id::Num(*n),
            Id::Str(s) => Id::Str(s.clone()),
        }
    }
}

/// The parameters of a call: none, by position or by name.
#[derive(Debug, PartialEq)]
pub enum Params {
    /// No parameters; the member is left out of the message.
    Empty,
    /// Parameters by position.
    Array(Vec<JsonValue>),
    /// Parameters by name, as a list of members.
    Object(Vec<(String, JsonValue)>),
}

/// A call that expects an answer.
#[derive(Debug, PartialEq)]
pub struct MethodCall {
    pub jsonrpc: Option<Version>,
    pub method: String,
    pub params: Params,
    pub id: Id,
}

/// A call that expects no answer.
#[derive(Debug, PartialEq)]
pub struct Notification {
    pub jsonrpc: Option<Version>,
    pub method: String,
    pub params: Params,
}

/// One call of a request.
#[derive(Debug, PartialEq)]
pub enum Call {
    MethodCall(MethodCall),
    Notification(Notification),
    Invalid { id: Id },
}

/// A request: one call, or a batch of calls.
#[derive(Debug, PartialEq)]
pub enum Request {
    Single(Call),
    Batch(Vec<Call>),
}

/// The kind of an error that a server reports.
#[derive(Debug, Clone, Copy, PartialEq, Eq, Structural)]
pub enum ErrorCode {
    ParseError,
    InvalidRequest,
    MethodNotFound,
    InvalidParams,
    InternalError,
    ServerError(i64),
}

impl ErrorCode {
    /// The number that stands for this kind on the wire.
    pub open spec fn spec_code(&self) -> i64 {
        match self {
            ErrorCode::ParseError => -32700i64,
            ErrorCode::InvalidRequest => -32600i64,
            ErrorCode::MethodNotFound => -32601i64,
            ErrorCode::InvalidParams => -32602i64,
            ErrorCode::InternalError => -32603i64,
            ErrorCode::ServerError(c) => *c,
        }
    }

    /// The number that stands for this kind on the wire.
    #[verifier::when_used_as_spec(spec_code)]
    pub fn code(&self) -> (r: i64)
        ensures
            r == self.spec_code(),
    {
        match self {
            ErrorCode::ParseError => -32700,
            ErrorCode::InvalidRequest => -32600,
            ErrorCode::MethodNotFound => -32601,
            ErrorCode::InvalidParams => -32602,
            ErrorCode::InternalError => -32603,
            ErrorCode::ServerError(c) => *c,
        }
    }
}

/// An error that a server reports for a call.
#[derive(Debug, PartialEq)]
pub struct RpcError {
    pub code: ErrorCode,
    pub message: String,
    pub data: Option<JsonValue>,
}

/// The answer to a call that succeeded.
#[derive(Debug, PartialEq)]
pub struct Success {
    pub jsonrpc: Option<Version>,
    pub result: JsonValue,
    pub id: Id,
}

/// The answer to a call that failed.
#[derive(Debug, PartialEq)]
pub struct Failure {
    pub jsonrpc: Option<Version>,
    pub error: RpcError,
    pub id: Id,
}

/// The answer to one call.
#[derive(Debug, PartialEq)]
pub enum Output {
    Success(Success),
    Failure(Failure),
}

impl Output {
    /// The id of the call that this answers.
    pub open spec fn spec_id(&self) -> Id {
        match self {
            Output::Success(s) => s.id,
            Output::Failure(f) => f.id,
        }
    }

    /// The id of the call that this answers.
    pub fn id(&self) -> (r: &Id)
        ensures
            *r == self.spec_id(),
    {
        match self {
            Output::Success(s) => &s.id,
            Output::Failure(f) => &f.id,
        }
    }
}

/// A response: one answer, or a batch of answers.
#[derive(Debug, PartialEq)]
pub enum Response {
    Single(Output),
    Batch(Vec<Output>),
}

} // verus!
