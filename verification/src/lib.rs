//! An event-driven JSON-RPC client: building requests, matching responses
//! and notifications to what is waiting for them, and the state of a
//! request in flight.

pub mod api;
pub mod error;
pub mod helpers;
pub mod json;
pub mod rpc;
pub mod transports;
mod wire;

use vstd::prelude::*;
use crate::api::SubscriptionId;
use crate::json::JsonValue;
use crate::rpc::Call;
use core::ops::Deref;

verus! {

/// The id that a request is sent with.
pub type RequestId = usize;

/// Whether a value that is being waited for has come.
#[derive(Debug)]
pub enum Async<T> {
    /// The value has come.
    Ready(T),
    /// The value has not come yet.
    NotReady,
}

/// A transport of JSON-RPC calls.
pub trait Transport: core::fmt::Debug + Clone {
    /// What a call yields while its answer is awaited.
    type Out;

    /// Whether `out` is what this transport yields for sending `request`
    /// under id `id`. A transport that says nothing of what it yields
    /// keeps this default.
    open spec fn sends(&self, id: RequestId, request: Call, out: Self::Out) -> bool {
        true
    }

    /// Whether `prepared` is what this transport's `prepare` gives for a
    /// call of `method` with `params`. A transport that says nothing more
    /// of what it prepares keeps this default.
    open spec fn prepares(&self, method: Seq<char>, params: JsonValue, prepared: (RequestId, Call)) -> bool {
        true
    }

    /// Prepares a call of `method` with `params`, under a fresh id (as a
    /// rule, the call that `build_request` makes under that id).
    fn prepare(&self, method: &str, params: JsonValue) -> (r: (RequestId, Call))
        ensures
            self.prepares(method@, params, r),
    ;

    /// Sends a prepared call.
    fn send(&self, id: RequestId, request: Call) -> (r: Self::Out)
        ensures
            self.sends(id, request, r),
    ;

    /// Calls `method` with `params`: sends the call that `prepare` gives,
    /// under the id it gives, and yields what `send` yields.
    fn execute(&self, method: &str, params: JsonValue) -> (r: Self::Out)
        ensures
            exists|prepared: (RequestId, Call)|
                #[trigger] self.prepares(method@, params, prepared)
                    && self.sends(prepared.0, prepared.1, r),
    {
        let prepared = self.prepare(method, params);
        let ghost sent = prepared;
        let (id, request) = prepared;
        let r = self.send(id, request);
        assert(self.prepares(method@, params, sent) && self.sends(sent.0, sent.1, r));
        r
    }
}

/// Whether `requests` are calls that `transport`'s `prepare` gives for
/// `calls`, one for each, in order.
pub open spec fn prepared_batch<T: Transport>(
    transport: &T,
    calls: Seq<(&str, JsonValue)>,
    requests: Seq<(RequestId, Call)>,
) -> bool {
    &&& requests.len() == calls.len()
    &&& forall|i: int| 0 <= i < calls.len() ==> transport.prepares(calls[i].0@, calls[i].1, #[trigger] requests[i])
}

/// A transport that can send several calls as one batch.
pub trait BatchTransport: Transport {
    /// What a batch yields while its answers are awaited.
    type Batch;

    /// Whether `out` is what this transport yields for sending `requests`
    /// as one batch. A transport that says nothing of what it yields keeps
    /// this default.
    open spec fn sends_batch(&self, requests: Seq<(RequestId, Call)>, out: Self::Batch) -> bool {
        true
    }

    /// Sends prepared calls as one batch.
    fn send_batch(&self, requests: Vec<(RequestId, Call)>) -> (r: Self::Batch)
        ensures
            self.sends_batch(requests@, r),
    ;

    /// Calls each method with its parameters, in one batch: prepares every
    /// call with `prepare`, in order, before the batch is sent, then sends
    /// exactly those prepared calls with `send_batch` and yields what it
    /// yields.
    fn execute_batch<'a>(&'a self, calls: Vec<(&'a str, JsonValue)>) -> (r: Self::Batch)
        ensures
            exists|requests: Seq<(RequestId, Call)>|
                prepared_batch(self, calls@, requests) && #[trigger] self.sends_batch(requests, r),
    {
        let ghost all = calls@;
        let mut requests: Vec<(RequestId, Call)> = Vec::new();
        for call in it: calls.into_iter()
            invariant
                it.seq() == all,
                prepared_batch(self, all.take(it.index() as int), requests@),
        {
            let (method, params) = call;
            let prepared = self.prepare(method, params);
            requests.push(prepared);
            proof {
                assert(all.take(it.index() + 1).drop_last() =~= all.take(it.index() as int));
            }
        }
        proof {
            assert(all.take(all.len() as int) =~= all);
        }
        let ghost sent = requests@;
        let r = self.send_batch(requests);
        assert(prepared_batch(self, all, sent) && self.sends_batch(sent, r));
        r
    }
}

/// A transport on which the server can also send notifications of subscriptions.
pub trait DuplexTransport: Transport {
    /// What yields the notifications of a subscription.
    type NotificationStream;

    /// Whether `stream` is what this transport yields for taking the
    /// notifications of subscription `id`. A transport that says nothing of
    /// what it yields keeps this default.
    open spec fn subscribes(&self, id: Seq<char>, stream: Self::NotificationStream) -> bool {
        true
    }

    /// Starts taking the notifications of subscription `id`.
    fn subscribe(&self, id: &SubscriptionId) -> (r: Self::NotificationStream)
        ensures
            self.subscribes(id@, r),
    ;

    /// Whether this transport's `unsubscribe` of subscription `id` takes
    /// away the subscriber of `id`, so that no notification of `id` reaches
    /// it after. A transport that says nothing of what it does keeps this
    /// default.
    open spec fn unsubscribes(&self, id: Seq<char>) -> bool {
        true
    }

    /// Stops taking the notifications of subscription `id`.
    fn unsubscribe(&self, id: &SubscriptionId)
        ensures
            self.unsubscribes(id@),
    ;
}

impl<X, T> Transport for X
    where
        T: Transport + ?Sized,
        X: core::ops::Deref<Target = T>,
        X: core::fmt::Debug,
        X: Clone,
{
    type Out = <T as Transport>::Out;

    /// What the transport that this value leads to prepares.
    open spec fn prepares(&self, method: Seq<char>, params: JsonValue, prepared: (RequestId, Call)) -> bool {
        exists|inner: &T| #[trigger] inner.prepares(method, params, prepared)
    }

    /// What the transport that this value leads to yields.
    open spec fn sends(&self, id: RequestId, request: Call, out: <T as Transport>::Out) -> bool {
        exists|inner: &T| #[trigger] inner.sends(id, request, out)
    }

    fn prepare(&self, method: &str, params: JsonValue) -> (RequestId, Call) {
        let inner: &T = self.deref();
        let r = inner.prepare(method, params);
        assert(inner.prepares(method@, params, r));
        r
    }

    fn send(&self, id: RequestId, request: Call) -> <T as Transport>::Out {
        let inner: &T = self.deref();
        let ghost sent = request;
        let r = inner.send(id, request);
        assert(inner.sends(id, sent, r));
        r
    }
}

impl<X, T> BatchTransport for X
    where
        T: BatchTransport + ?Sized,
        X: core::ops::Deref<Target = T>,
        X: core::fmt::Debug,
        X: Clone,
{
    type Batch = <T as BatchTransport>::Batch;

    /// What the transport that this value leads to yields.
    open spec fn sends_batch(&self, requests: Seq<(RequestId, Call)>, out: <T as BatchTransport>::Batch) -> bool {
        exists|inner: &T| #[trigger] inner.sends_batch(requests, out)
    }

    fn send_batch(&self, requests: Vec<(RequestId, Call)>) -> <T as BatchTransport>::Batch {
        let inner: &T = self.deref();
        let ghost sent = requests@;
        let r = inner.send_batch(requests);
        assert(inner.sends_batch(sent, r));
        r
    }
}

impl<X, T> DuplexTransport for X
    where
        T: DuplexTransport + ?Sized,
        X: core::ops::Deref<Target = T>,
        X: core::fmt::Debug,
        X: Clone,
{
    type NotificationStream = <T as DuplexTransport>::NotificationStream;

    /// What the transport that this value leads to yields.
    open spec fn subscribes(&self, id: Seq<char>, stream: <T as DuplexTransport>::NotificationStream) -> bool {
        exists|inner: &T| #[trigger] inner.subscribes(id, stream)
    }

    fn subscribe(&self, id: &SubscriptionId) -> <T as DuplexTransport>::NotificationStream {
        let inner: &T = self.deref();
        let r = inner.subscribe(id);
        assert(inner.subscribes(id@, r));
        r
    }

    /// What the transport that this value leads to does.
    open spec fn unsubscribes(&self, id: Seq<char>) -> bool {
        exists|inner: &T| #[trigger] inner.unsubscribes(id)
    }

    fn unsubscribe(&self, id: &SubscriptionId) {
        let inner: &T = self.deref();
        inner.unsubscribe(id);
        assert(inner.unsubscribes(id@));
    }
}

/// Unsubscribing through a value that leads to a transport is the
/// transport's own unsubscribing: the transport takes away the subscriber.
pub proof fn unsubscribe_reaches_transport<X, T>(pointer: &X, id: Seq<char>)
    where
        T: DuplexTransport + ?Sized,
        X: core::ops::Deref<Target = T>,
        X: core::fmt::Debug,
        X: Clone,
    requires
        pointer.unsubscribes(id),
    ensures
        exists|transport: &T| #[trigger] transport.unsubscribes(id),
{
}

} // verus!
