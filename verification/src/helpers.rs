//! Building requests and reading answers.

use vstd::prelude::*;
use core::marker::PhantomData;
use crate::{Async, RequestId};
use crate::error::{Error, ErrorKind};
use crate::json::JsonValue;
use crate::rpc::{Call, Id, MethodCall, Notification, Output, Params, Response, Version};

verus! {

/// A call in flight whose result is decoded into a `T` once it comes.
pub struct CallFuture<T, F> {
    inner: F,
    _marker: PhantomData<T>,
}

/// What a decoded result makes of a poll: the value, or a decoder error with
/// the decoder's description.
pub open spec fn decoded<T>(d: Result<T, String>) -> Result<Async<T>, Error> {
    match d {
        Ok(value) => Ok(Async::Ready(value)),
        Err(message) => Err(Error { kind: ErrorKind::Decoder(message) }),
    }
}

impl<T, F> CallFuture<T, F> {
    /// The call in flight.
    pub closed spec fn inner_future(&self) -> F {
        self.inner
    }

    /// Wraps the call in flight `inner`.
    pub fn new(inner: F) -> (r: Self)
        ensures
            r.inner_future() == inner,
    {
        CallFuture { inner: inner, _marker: PhantomData }
    }

    /// The call in flight, to be polled.
    pub fn inner_mut(&mut self) -> (r: &mut F)
        ensures
            *r == old(self).inner_future(),
            final(self).inner_future() == *final(r),
    {
        &mut self.inner
    }

    /// Turns what polling the call in flight gave into the outcome of this
    /// poll: a result that has come is decoded with `decode`, and anything
    /// else is passed on.
    pub fn poll<D>(&self, inner_poll: Result<Async<JsonValue>, Error>, decode: D) -> (r: Result<Async<T>, Error>)
        where
            D: FnOnce(JsonValue) -> Result<T, String>,
        requires
            inner_poll matches Ok(Async::Ready(x)) ==> decode.requires((x,)),
        ensures
            match inner_poll {
                Ok(Async::Ready(x)) => exists|d: Result<T, String>| decode.ensures((x,), d) && r == decoded(d),
                Ok(Async::NotReady) => r == Ok::<Async<T>, Error>(Async::NotReady),
                Err(e) => r == Err::<Async<T>, Error>(e),
            },
    {
        match inner_poll {
            Ok(Async::Ready(x)) => {
                let d = decode(x);
                let ghost dg = d;
                let r = match d {
                    Ok(value) => Ok(Async::Ready(value)),
                    Err(message) => Err(Error::new(ErrorKind::Decoder(message))),
                };
                assert(decode.ensures((x,), dg) && r == decoded(dg));
                r
            },
            Ok(Async::NotReady) => Ok(Async::NotReady),
            Err(e) => Err(e),
        }
    }
}

/// How a value given as the parameters of a call is sent: `null` as no
/// parameters, an array or an object as it is, anything else as the one
/// positional parameter.
pub open spec fn params_for(value: JsonValue, params: Params) -> bool {
    match value {
        JsonValue::Null => params is Empty,
        JsonValue::Array(items) => params == Params::Array(items),
        JsonValue::Object(members) => params == Params::Object(members),
        _ => params matches Params::Array(items) && items@ == seq![value],
    }
}

/// Whether `call` is the version 2.0 method call of `method` with id `id`
/// and the parameters that `value` gives.
pub open spec fn is_request_for(call: Call, id: RequestId, method: Seq<char>, value: JsonValue) -> bool {
    &&& call matches Call::MethodCall(mc)
    &&& mc.jsonrpc == Some(Version::V2)
    &&& mc.method@ == method
    &&& mc.id == Id::Num(id as u64)
    &&& params_for(value, mc.params)
}

/// Builds a JSON-RPC request.
pub fn build_request(id: RequestId, method: &str, json_params: JsonValue) -> (r: Call)
    ensures
        is_request_for(r, id, method@, json_params),
{
    let ghost value = json_params;
    let params = match json_params {
        JsonValue::Null => Params::Empty,
        JsonValue::Array(items) => Params::Array(items),
        JsonValue::Object(members) => Params::Object(members),
        other => {
            let mut items: Vec<JsonValue> = Vec::new();
            items.push(other);
            Params::Array(items)
        },
    };
    Call::MethodCall(MethodCall {
        jsonrpc: Some(Version::V2),
        method: method.to_owned(),
        params: params,
        id: Id::Num(id as u64),
    })
}

/// What an answer says: its result, or the error the server reported.
pub open spec fn result_of(output: Output) -> Result<JsonValue, Error> {
    match output {
        Output::Success(success) => Ok(success.result),
        Output::Failure(failure) => Err(Error { kind: ErrorKind::Rpc(failure.error) }),
    }
}

/// Reads an answer as a `Result`.
pub fn to_result_from_output(output: Output) -> (r: Result<JsonValue, Error>)
    ensures
        r == result_of(output),
{
    match output {
        Output::Success(success) => Ok(success.result),
        Output::Failure(failure) => Err(Error::new(ErrorKind::Rpc(failure.error))),
    }
}

/// A failure answer is read as the error that the server reported, as it
/// came (its code, its message and its data, whatever they are), and never
/// as a result; a success answer is read as its result.
pub proof fn answer_read_as_it_came(output: Output)
    ensures
        output matches Output::Failure(f)
            ==> result_of(output) == Err::<JsonValue, Error>((Error { kind: ErrorKind::Rpc(f.error) })),
        output matches Output::Failure(_) ==> !(result_of(output) is Ok),
        output matches Output::Success(s) ==> result_of(output) == Ok::<JsonValue, Error>(s.result),
{
}

/// Whether `results` reads each of `outputs`, in order.
pub open spec fn results_of(outputs: Seq<Output>, results: Seq<Result<JsonValue, Error>>) -> bool {
    &&& results.len() == outputs.len()
    &&& forall|i: int| 0 <= i < outputs.len() ==> #[trigger] results[i] == result_of(outputs[i])
}

/// Each answer of a batch is read as it came, in its place: a failure as
/// the error that the server reported for that call, a success as its
/// result.
pub proof fn batch_read_as_it_came(outputs: Seq<Output>, results: Seq<Result<JsonValue, Error>>)
    requires
        results_of(outputs, results),
    ensures
        results.len() == outputs.len(),
        forall|i: int| 0 <= i < outputs.len() ==> (match outputs[i] {
            Output::Failure(f) => #[trigger] results[i] == Err::<JsonValue, Error>((Error { kind: ErrorKind::Rpc(f.error) })),
            Output::Success(s) => results[i] == Ok::<JsonValue, Error>(s.result),
        }),
{
    assert forall|i: int| 0 <= i < outputs.len() implies (match outputs[i] {
        Output::Failure(f) => #[trigger] results[i] == Err::<JsonValue, Error>((Error { kind: ErrorKind::Rpc(f.error) })),
        Output::Success(s) => results[i] == Ok::<JsonValue, Error>(s.result),
    }) by {
        assert(results[i] == result_of(outputs[i]));
    }
}

/// Reads each answer of a batch as a `Result`.
pub fn to_results_from_outputs(outputs: Vec<Output>) -> (r: Result<Vec<Result<JsonValue, Error>>, Error>)
    ensures
        r matches Ok(results) && results_of(outputs@, results@),
{
    let ghost all = outputs@;
    let mut results: Vec<Result<JsonValue, Error>> = Vec::new();
    for output in it: outputs.into_iter()
        invariant
            it.seq() == all,
            results@.len() == it.index(),
            forall|i: int| 0 <= i < it.index() ==> #[trigger] results@[i] == result_of(all[i]),
    {
        results.push(to_result_from_output(output));
    }
    Ok(results)
}


/// What `serde_json::from_slice` makes of `bytes` read as a JSON-RPC
/// response (`jsonrpc_core::Response`): the response, converted one for
/// one into the library's types, or the `Debug` text of the parse error.
pub uninterp spec fn parsed_response(bytes: Seq<u8>) -> Result<Response, Seq<char>>;

/// What `serde_json::from_slice` makes of `bytes` read as a JSON-RPC
/// notification (`jsonrpc_core::Notification`): the notification,
/// converted one for one into the library's types, or the `Debug` text of
/// the parse error.
pub uninterp spec fn parsed_notification(bytes: Seq<u8>) -> Result<Notification, Seq<char>>;

/// Parses the bytes of a message as a JSON-RPC response with
/// `serde_json::from_slice`; a message that does not parse is an invalid
/// response, described by the parser's error.
#[verifier::external_body]
pub fn to_response_from_slice(response: &[u8]) -> (r: Result<Response, Error>)
    ensures
        match parsed_response(response@) {
            Ok(parsed) => r == Ok::<Response, Error>(parsed),
            Err(message) => {
                &&& r matches Err(e)
                &&& e.kind matches ErrorKind::InvalidResponse(m)
                &&& m@ == message
            },
        },
{
    match serde_json::from_slice::<jsonrpc_core::Response>(response) {
        Ok(parsed) => Ok(crate::wire::response_from_wire(parsed)),
        Err(e) => Err(Error::new(ErrorKind::InvalidResponse(format!("{:?}", e)))),
    }
}

/// Parses the bytes of a message as a JSON-RPC notification with
/// `serde_json::from_slice`; a message that does not parse is an invalid
/// response, described by the parser's error.
#[verifier::external_body]
pub fn to_notification_from_slice(notification: &[u8]) -> (r: Result<Notification, Error>)
    ensures
        match parsed_notification(notification@) {
            Ok(parsed) => r == Ok::<Notification, Error>(parsed),
            Err(message) => {
                &&& r matches Err(e)
                &&& e.kind matches ErrorKind::InvalidResponse(m)
                &&& m@ == message
            },
        },
{
    match serde_json::from_slice::<jsonrpc_core::Notification>(notification) {
        Ok(parsed) => Ok(crate::wire::notification_from_wire(parsed)),
        Err(e) => Err(Error::new(ErrorKind::InvalidResponse(format!("{:?}", e)))),
    }
}
} // verus!
