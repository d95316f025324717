//! Matching incoming messages to the requests and subscriptions that wait
//! for them.

use vstd::prelude::*;
use std::collections::BTreeMap;
use crate::RequestId;
use crate::api::SubscriptionId;
use crate::error::{Error, ErrorKind};
use crate::helpers::{
    batch_read_as_it_came, is_request_for, parsed_notification, parsed_response, results_of, to_notification_from_slice,
    to_response_from_slice, to_results_from_outputs,
};
use crate::json::{find_member, has_member, is_first_member, JsonValue};
use crate::rpc::{Call, Id, Notification, Output, Params, Request, Response};

verus! {

/// Whether no two of `entries` have the same id.
pub open spec fn ids_distinct<S>(entries: Seq<(SubscriptionId, S)>) -> bool {
    forall|i: int, j: int|
        0 <= i < entries.len() && 0 <= j < entries.len() && i != j
            ==> (#[trigger] entries[i]).0@ != (#[trigger] entries[j]).0@
}

/// Whether one of `entries` has id `id`.
pub open spec fn has_id<S>(entries: Seq<(SubscriptionId, S)>, id: Seq<char>) -> bool {
    exists|i: int| 0 <= i < entries.len() && (#[trigger] entries[i]).0@ == id
}

/// The map from ids to subscribers that `entries` holds.
pub open spec fn entries_map<S>(entries: Seq<(SubscriptionId, S)>) -> Map<Seq<char>, S> {
    Map::new(
        |id: Seq<char>| has_id(entries, id),
        |id: Seq<char>| entries[choose|i: int| 0 <= i < entries.len() && (#[trigger] entries[i]).0@ == id].1,
    )
}

/// The subscribers of the notifications of each subscription.
#[derive(Debug)]
pub struct Subscriptions<S> {
    entries: Vec<(SubscriptionId, S)>,
}

impl<S> View for Subscriptions<S> {
    type V = Map<Seq<char>, S>;

    closed spec fn view(&self) -> Map<Seq<char>, S> {
        entries_map(self.entries@)
    }
}

/// The value that `entries` holds at position `i`, where no other entry has its id.
proof fn lemma_entries_map_at<S>(entries: Seq<(SubscriptionId, S)>, i: int)
    requires
        ids_distinct(entries),
        0 <= i < entries.len(),
    ensures
        entries_map(entries).contains_key(entries[i].0@),
        entries_map(entries)[entries[i].0@] == entries[i].1,
{
    let id = entries[i].0@;
    assert(has_id(entries, id));
    let c = choose|c: int| 0 <= c < entries.len() && (#[trigger] entries[c]).0@ == id;
    assert(entries[c].0@ == id);
}

/// Taking out the entry at position `i` takes its id out of the map, and
/// keeps the ids distinct.
proof fn lemma_entries_remove<S>(entries: Seq<(SubscriptionId, S)>, i: int)
    requires
        ids_distinct(entries),
        0 <= i < entries.len(),
    ensures
        ids_distinct(entries.remove(i)),
        entries_map(entries.remove(i)) == entries_map(entries).remove(entries[i].0@),
{
    let id = entries[i].0@;
    let rest = entries.remove(i);
    assert forall|a: int, b: int|
        0 <= a < rest.len() && 0 <= b < rest.len() && a != b
        implies (#[trigger] rest[a]).0@ != (#[trigger] rest[b]).0@ by {
        let oa = if a >= i { a + 1 } else { a };
        let ob = if b >= i { b + 1 } else { b };
        assert(rest[a] == entries[oa]);
        assert(rest[b] == entries[ob]);
    }
    assert forall|n: int| 0 <= n < rest.len() implies (#[trigger] rest[n]).0@ != id by {
        let o = if n >= i { n + 1 } else { n };
        assert(rest[n] == entries[o]);
    }
    assert forall|k: Seq<char>| #![trigger entries_map(rest).contains_key(k)]
        k != id implies
        entries_map(rest).contains_key(k) == entries_map(entries).contains_key(k)
        && (entries_map(rest).contains_key(k) ==> entries_map(rest)[k] == entries_map(entries)[k]) by {
        if entries_map(entries).contains_key(k) {
            let o = choose|o: int| 0 <= o < entries.len() && (#[trigger] entries[o]).0@ == k;
            lemma_entries_map_at(entries, o);
            let n = if o > i { o - 1 } else { o };
            assert(rest[n] == entries[o]);
            lemma_entries_map_at(rest, n);
        }
        if entries_map(rest).contains_key(k) {
            let n = choose|n: int| 0 <= n < rest.len() && (#[trigger] rest[n]).0@ == k;
            let o = if n >= i { n + 1 } else { n };
            assert(rest[n] == entries[o]);
            assert(has_id(entries, k));
        }
    }
    assert(entries_map(rest) =~= entries_map(entries).remove(id));
}

/// Adding an entry whose id no entry has puts that id into the map, and
/// keeps the ids distinct.
proof fn lemma_entries_push<S>(entries: Seq<(SubscriptionId, S)>, entry: (SubscriptionId, S))
    requires
        ids_distinct(entries),
        !has_id(entries, entry.0@),
    ensures
        ids_distinct(entries.push(entry)),
        entries_map(entries.push(entry)) == entries_map(entries).insert(entry.0@, entry.1),
{
    let id = entry.0@;
    let more = entries.push(entry);
    assert forall|a: int, b: int|
        0 <= a < more.len() && 0 <= b < more.len() && a != b
        implies (#[trigger] more[a]).0@ != (#[trigger] more[b]).0@ by {
        if a < entries.len() {
            assert(more[a] == entries[a]);
        }
        if b < entries.len() {
            assert(more[b] == entries[b]);
        }
    }
    lemma_entries_map_at(more, more.len() - 1);
    assert forall|k: Seq<char>| #![trigger entries_map(more).contains_key(k)]
        k != id implies
        entries_map(more).contains_key(k) == entries_map(entries).contains_key(k)
        && (entries_map(more).contains_key(k) ==> entries_map(more)[k] == entries_map(entries)[k]) by {
        if entries_map(entries).contains_key(k) {
            let o = choose|o: int| 0 <= o < entries.len() && (#[trigger] entries[o]).0@ == k;
            lemma_entries_map_at(entries, o);
            assert(more[o] == entries[o]);
            lemma_entries_map_at(more, o);
        }
        if entries_map(more).contains_key(k) {
            let n = choose|n: int| 0 <= n < more.len() && (#[trigger] more[n]).0@ == k;
            assert(more[n] == entries[n]);
            assert(has_id(entries, k));
        }
    }
    assert(entries_map(more) =~= entries_map(entries).insert(id, entry.1));
}

impl<S> Subscriptions<S> {
    #[verifier::type_invariant]
    closed spec fn well_formed(&self) -> bool {
        ids_distinct(self.entries@)
    }

    /// No subscriptions.
    pub fn new() -> (r: Self)
        ensures
            r@ == Map::<Seq<char>, S>::empty(),
    {
        let r = Subscriptions { entries: Vec::new() };
        assert(r@ =~= Map::<Seq<char>, S>::empty());
        r
    }

    /// The position of the entry with id `id`.
    fn position(&self, id: &SubscriptionId) -> (r: Option<usize>)
        ensures
            match r {
                Some(i) => i < self.entries@.len() && self.entries@[i as int].0@ == id@,
                None => !has_id(self.entries@, id@),
            },
    {
        let mut i: usize = 0;
        while i < self.entries.len()
            invariant
                i <= self.entries@.len(),
                forall|j: int| 0 <= j < i ==> (#[trigger] self.entries@[j]).0@ != id@,
            decreases self.entries@.len() - i,
        {
            if self.entries[i].0.same_as(id) {
                return Some(i);
            }
            i = i + 1;
        }
        None
    }

    /// Whether subscription `id` has a subscriber.
    pub fn contains(&self, id: &SubscriptionId) -> (r: bool)
        ensures
            r == self@.contains_key(id@),
    {
        self.position(id).is_some()
    }

    /// The subscriber of subscription `id`.
    pub fn get(&self, id: &SubscriptionId) -> (r: Option<&S>)
        ensures
            match r {
                Some(s) => self@.contains_key(id@) && *s == self@[id@],
                None => !self@.contains_key(id@),
            },
    {
        proof {
            use_type_invariant(self);
        }
        match self.position(id) {
            Some(i) => {
                proof {
                    lemma_entries_map_at(self.entries@, i as int);
                }
                Some(&self.entries[i].1)
            },
            None => None,
        }
    }

    /// Makes `subscriber` the subscriber of subscription `id`, and gives back
    /// the one it replaces.
    pub fn insert(&mut self, id: SubscriptionId, subscriber: S) -> (r: Option<S>)
        ensures
            final(self)@ == old(self)@.insert(id@, subscriber),
            match r {
                Some(s) => old(self)@.contains_key(id@) && s == old(self)@[id@],
                None => !old(self)@.contains_key(id@),
            },
    {
        proof {
            use_type_invariant(&*self);
        }
        let ghost old_entries = self.entries@;
        let found = self.position(&id);
        let mut entries: Vec<(SubscriptionId, S)> = Vec::new();
        std::mem::swap(&mut entries, &mut self.entries);
        let r = match found {
            Some(i) => {
                proof {
                    lemma_entries_map_at(old_entries, i as int);
                    lemma_entries_remove(old_entries, i as int);
                }
                let (_, replaced) = entries.remove(i);
                Some(replaced)
            },
            None => None,
        };
        proof {
            assert(!has_id(entries@, id@));
            lemma_entries_push(entries@, (id, subscriber));
        }
        entries.push((id, subscriber));
        assert(entries_map(entries@) =~= entries_map(old_entries).insert(id@, subscriber));
        self.entries = entries;
        r
    }

    /// Takes away the subscriber of subscription `id`, if it has one.
    pub fn remove(&mut self, id: &SubscriptionId) -> (r: Option<S>)
        ensures
            final(self)@ == old(self)@.remove(id@),
            match r {
                Some(s) => old(self)@.contains_key(id@) && s == old(self)@[id@],
                None => !old(self)@.contains_key(id@),
            },
    {
        proof {
            use_type_invariant(&*self);
        }
        let ghost old_entries = self.entries@;
        match self.position(id) {
            None => {
                assert(entries_map(old_entries) =~= entries_map(old_entries).remove(id@));
                None
            },
            Some(i) => {
                proof {
                    lemma_entries_map_at(old_entries, i as int);
                }
                let mut entries: Vec<(SubscriptionId, S)> = Vec::new();
                std::mem::swap(&mut entries, &mut self.entries);
                proof {
                    lemma_entries_remove(old_entries, i as int);
                }
                let (_, removed) = entries.remove(i);
                self.entries = entries;
                Some(removed)
            },
        }
    }
}


/// The name of the parameter that says which subscription a notification is for.
pub open spec fn subscription_key() -> Seq<char> {
    "subscription"@
}

/// The name of the parameter that carries what a notification reports.
pub open spec fn result_key() -> Seq<char> {
    "result"@
}

/// The position of the first member of `members` named `key`.
pub open spec fn first_member(members: Seq<(String, JsonValue)>, key: Seq<char>) -> int {
    choose|i: int| is_first_member(members, key, i)
}

proof fn lemma_first_member(members: Seq<(String, JsonValue)>, key: Seq<char>, i: int)
    requires
        is_first_member(members, key, i),
    ensures
        first_member(members, key) == i,
{
    let c = first_member(members, key);
    assert(is_first_member(members, key, c));
    if c < i {
        assert(members[c].0@ != key);
    } else if c > i {
        assert(members[i].0@ != key);
    }
}

/// A member named `key` has a first one.
proof fn lemma_first_member_exists(members: Seq<(String, JsonValue)>, key: Seq<char>, i: int)
    requires
        0 <= i < members.len(),
        members[i].0@ == key,
    ensures
        exists|k: int| is_first_member(members, key, k),
    decreases i,
{
    if exists|j: int| 0 <= j < i && (#[trigger] members[j]).0@ == key {
        let j = choose|j: int| 0 <= j < i && (#[trigger] members[j]).0@ == key;
        lemma_first_member_exists(members, key, j);
    } else {
        assert(is_first_member(members, key, i));
    }
}

/// Where a member named `key` is, `first_member` finds the first one.
proof fn lemma_first_member_found(members: Seq<(String, JsonValue)>, key: Seq<char>)
    requires
        has_member(members, key),
    ensures
        is_first_member(members, key, first_member(members, key)),
{
    let i = choose|i: int| 0 <= i < members.len() && (#[trigger] members[i]).0@ == key;
    lemma_first_member_exists(members, key, i);
}

/// Where an incoming notification goes.
#[derive(Debug, PartialEq)]
pub enum NotificationRoute {
    /// To the subscriber of `subscription`, with `result`.
    Deliver { subscription: SubscriptionId, result: JsonValue },
    /// Its subscription has no subscriber.
    UnknownSubscription(SubscriptionId),
    /// Its parameters name no subscription by a string, or carry no result.
    Unsupported,
    /// Its parameters are not given by name.
    Ignored,
}

/// Whether `route` is where `notification` goes when `subscribed` holds the
/// subscriptions that have a subscriber.
pub open spec fn routes_notification<S>(
    subscribed: Map<Seq<char>, S>,
    notification: Notification,
    route: NotificationRoute,
) -> bool {
    match notification.params {
        Params::Object(members) => {
            let m = members@;
            if has_member(m, subscription_key()) && has_member(m, result_key()) {
                match m[first_member(m, subscription_key())].1 {
                    JsonValue::String(id) => if subscribed.contains_key(id@) {
                        &&& route matches NotificationRoute::Deliver { subscription, result }
                        &&& subscription@ == id@
                        &&& result == m[first_member(m, result_key())].1
                    } else {
                        route matches NotificationRoute::UnknownSubscription(subscription)
                            && subscription@ == id@
                    },
                    _ => route is Unsupported,
                }
            } else {
                route is Unsupported
            }
        },
        _ => route is Ignored,
    }
}

impl<S> Subscriptions<S> {
    /// Where `notification` goes: to the subscriber of the subscription
    /// that its parameters name, with the result they carry.
    pub fn route_notification(&self, notification: Notification) -> (r: NotificationRoute)
        ensures
            routes_notification(self@, notification, r),
    {
        let ghost n = notification;
        match notification.params {
            Params::Object(members) => {
                let subscription_name = "subscription".to_owned();
                let result_name = "result".to_owned();
                let found_subscription = find_member(&members, &subscription_name);
                let found_result = find_member(&members, &result_name);
                let ghost m = members@;
                match (found_subscription, found_result) {
                    (Some(i), Some(j)) => {
                        proof {
                            reveal_strlit("subscription");
                            reveal_strlit("result");
                            assert(subscription_key() != result_key()) by {
                                assert(subscription_key().len() != result_key().len());
                            }
                            lemma_first_member(m, subscription_key(), i as int);
                            lemma_first_member(m, result_key(), j as int);
                        }
                        let mut members = members;
                        let (named, result) = if i < j {
                            let (_, result) = members.remove(j);
                            let (_, named) = members.remove(i);
                            (named, result)
                        } else {
                            let (_, named) = members.remove(i);
                            let (_, result) = members.remove(j);
                            (named, result)
                        };
                        match named {
                            JsonValue::String(id) => {
                                let subscription = SubscriptionId::new(id);
                                if self.contains(&subscription) {
                                    NotificationRoute::Deliver { subscription, result }
                                } else {
                                    NotificationRoute::UnknownSubscription(subscription)
                                }
                            },
                            _ => NotificationRoute::Unsupported,
                        }
                    },
                    _ => NotificationRoute::Unsupported,
                }
            },
            _ => NotificationRoute::Ignored,
        }
    }
}

/// The answers that a response carries: the one of a single response,
/// those of a batch, and none where the message was no response.
pub open spec fn outputs_of(response: Result<Response, Error>) -> Seq<Output> {
    match response {
        Ok(Response::Single(output)) => seq![output],
        Ok(Response::Batch(outputs)) => outputs@,
        Err(_) => Seq::empty(),
    }
}

/// The id that a response is matched by: that of its first answer, and 0
/// where it carries none.
pub open spec fn response_id(outputs: Seq<Output>) -> Id {
    if outputs.len() > 0 {
        outputs[0].spec_id()
    } else {
        Id::Num(0)
    }
}

/// Where an incoming response goes.
#[derive(Debug, PartialEq)]
pub enum ResponseRoute<P> {
    /// To `pending`, which waited for it, with what each answer says.
    Deliver { pending: P, results: Result<Vec<Result<JsonValue, Error>>, Error> },
    /// No request with this id waits for an answer.
    UnknownRequest(u64),
    /// Its id is not a number.
    UnsupportedId(Id),
}

/// Whether `route` is where `response` goes, and `after` what waits once
/// it has gone, when `before` waits for answers.
pub open spec fn routes_response<P>(
    before: Map<RequestId, P>,
    response: Result<Response, Error>,
    route: ResponseRoute<P>,
    after: Map<RequestId, P>,
) -> bool {
    routes_outputs(before, outputs_of(response), route, after)
}

/// Whether `route` is where a response that carries the answers `outputs`
/// goes, and `after` what waits once it has gone, when `before` waits for
/// answers.
pub open spec fn routes_outputs<P>(
    before: Map<RequestId, P>,
    outputs: Seq<Output>,
    route: ResponseRoute<P>,
    after: Map<RequestId, P>,
) -> bool {
    match response_id(outputs) {
        Id::Num(n) => if before.contains_key(n as usize) {
            &&& route matches ResponseRoute::Deliver { pending, results }
            &&& pending == before[n as usize]
            &&& results matches Ok(rs) && results_of(outputs, rs@)
            &&& after == before.remove(n as usize)
        } else {
            &&& route == ResponseRoute::<P>::UnknownRequest(n)
            &&& after == before
        },
        other => {
            &&& route == ResponseRoute::<P>::UnsupportedId(other)
            &&& after == before
        },
    }
}

/// The answers that a message carries that parsed as `parsed`: the one of
/// a single response, those of a batch, and none where it did not parse.
pub open spec fn parsed_outputs(parsed: Result<Response, Seq<char>>) -> Seq<Output> {
    match parsed {
        Ok(Response::Single(output)) => seq![output],
        Ok(Response::Batch(outputs)) => outputs@,
        Err(_) => Seq::empty(),
    }
}

/// The requests that wait for their answer, by id.
#[derive(Debug)]
pub struct PendingRequests<P> {
    map: BTreeMap<RequestId, P>,
}

impl<P> View for PendingRequests<P> {
    type V = Map<RequestId, P>;

    closed spec fn view(&self) -> Map<RequestId, P> {
        self.map@
    }
}

impl<P> PendingRequests<P> {
    /// No requests.
    pub fn new() -> (r: Self)
        ensures
            r@ == Map::<RequestId, P>::empty(),
    {
        PendingRequests { map: BTreeMap::new() }
    }

    /// Makes `pending` wait for the answer to request `id`, in place of the
    /// one that waited before, which it gives back.
    pub fn insert(&mut self, id: RequestId, pending: P) -> (r: Option<P>)
        ensures
            final(self)@ == old(self)@.insert(id, pending),
            match r {
                Some(p) => old(self)@.contains_key(id) && p == old(self)@[id],
                None => !old(self)@.contains_key(id),
            },
    {
        broadcast use vstd::laws_cmp::group_laws_cmp;
        self.map.insert(id, pending)
    }

    /// Takes away what waits for the answer to request `id`.
    pub fn remove(&mut self, id: RequestId) -> (r: Option<P>)
        ensures
            final(self)@ == old(self)@.remove(id),
            match r {
                Some(p) => old(self)@.contains_key(id) && p == old(self)@[id],
                None => !old(self)@.contains_key(id),
            },
    {
        broadcast use vstd::laws_cmp::group_laws_cmp, vstd::std_specs::btree::group_btree_axioms;
        self.map.remove(&id)
    }

    /// Where `response` goes: to what waits for the request whose id the
    /// first answer gives, which stops waiting.
    pub fn route_response(&mut self, response: Result<Response, Error>) -> (r: ResponseRoute<P>)
        ensures
            routes_response(old(self)@, response, r, final(self)@),
    {
        let ghost outputs_spec = outputs_of(response);
        let outputs: Vec<Output> = match response {
            Ok(Response::Single(output)) => {
                let mut v: Vec<Output> = Vec::new();
                v.push(output);
                v
            },
            Ok(Response::Batch(outputs)) => outputs,
            Err(_) => Vec::new(),
        };
        assert(outputs@ =~= outputs_spec);
        let id = if outputs.len() > 0 {
            outputs[0].id().duplicate()
        } else {
            Id::Num(0)
        };
        match id {
            Id::Num(n) => match self.remove(n as usize) {
                Some(pending) => ResponseRoute::Deliver { pending, results: to_results_from_outputs(outputs) },
                None => {
                    assert(self@ =~= old(self)@);
                    ResponseRoute::UnknownRequest(n)
                },
            },
            other => ResponseRoute::UnsupportedId(other),
        }
    }
}

/// Where an incoming message goes.
#[derive(Debug)]
pub enum MessageRoute<P> {
    /// It is a notification, which goes here.
    Notification(NotificationRoute),
    /// It is no notification, and is taken as a response, which goes here.
    Response(ResponseRoute<P>),
}

/// Where a message from the server goes: a message that parses as a
/// notification is routed as one; any other is parsed as a response and
/// routed as one, a message that parses as neither as a response with no
/// answers.
pub fn route_message<S, P>(
    subscriptions: &Subscriptions<S>,
    pending: &mut PendingRequests<P>,
    message: &[u8],
) -> (r: MessageRoute<P>)
    ensures
        match parsed_notification(message@) {
            Ok(n) => {
                &&& r matches MessageRoute::Notification(route)
                &&& routes_notification(subscriptions@, n, route)
                &&& final(pending)@ == old(pending)@
            },
            Err(_) => {
                &&& r matches MessageRoute::Response(route)
                &&& routes_outputs(old(pending)@, parsed_outputs(parsed_response(message@)), route, final(pending)@)
            },
        },
{
    match to_notification_from_slice(message) {
        Ok(n) => MessageRoute::Notification(subscriptions.route_notification(n)),
        Err(_) => {
            let response = to_response_from_slice(message);
            assert(outputs_of(response) =~= parsed_outputs(parsed_response(message@)));
            MessageRoute::Response(pending.route_response(response))
        },
    }
}

/// What a single call yields of the results of its response: the first,
/// or an invalid-response error where there is none.
pub fn single_result(response: Vec<Result<JsonValue, Error>>) -> (r: Result<JsonValue, Error>)
    ensures
        response@.len() > 0 ==> r == response@[0],
        response@.len() == 0 ==> (r matches Err(e) && e.kind matches ErrorKind::InvalidResponse(message)
            && message@ == "Expected single, got batch."@),
{
    let mut response = response;
    if response.len() > 0 {
        response.remove(0)
    } else {
        Err(Error::new(ErrorKind::InvalidResponse("Expected single, got batch.".to_owned())))
    }
}

/// Puts prepared calls into one batch request, which goes by the id of the
/// first call, or 0 where there is none.
pub fn batch_request(requests: Vec<(RequestId, Call)>) -> (r: (RequestId, Request))
    ensures
        r.0 == (if requests@.len() > 0 { requests@[0].0 } else { 0 }),
        r.1 matches Request::Batch(calls) && calls@.len() == requests@.len()
            && forall|i: int| 0 <= i < requests@.len() ==> #[trigger] calls@[i] == requests@[i].1,
{
    let ghost all = requests@;
    let id = if requests.len() > 0 {
        requests[0].0
    } else {
        0
    };
    let mut calls: Vec<Call> = Vec::new();
    for request in it: requests.into_iter()
        invariant
            it.seq() == all,
            calls@.len() == it.index(),
            forall|i: int| 0 <= i < it.index() ==> #[trigger] calls@[i] == all[i].1,
    {
        calls.push(request.1);
    }
    (id, Request::Batch(calls))
}

/// An answer that carries the id of a call that `build_request` made with
/// id `id` is matched, as the first answer of a response, to what waits
/// under `id`.
pub proof fn answer_finds_its_call(
    call: Call,
    id: RequestId,
    method: Seq<char>,
    value: JsonValue,
    response: Result<Response, Error>,
)
    requires
        is_request_for(call, id, method, value),
        outputs_of(response).len() > 0,
        call matches Call::MethodCall(mc) && outputs_of(response)[0].spec_id() == mc.id,
    ensures
        response_id(outputs_of(response)) matches Id::Num(n) && n as usize == id,
{
}

/// A request takes at most one response: once a response has been
/// delivered to what waited for it, a second response with the same id
/// finds no request.
pub proof fn response_delivered_at_most_once<P>(
    before: Map<RequestId, P>,
    first: Result<Response, Error>,
    first_route: ResponseRoute<P>,
    between: Map<RequestId, P>,
    second: Result<Response, Error>,
    second_route: ResponseRoute<P>,
    after: Map<RequestId, P>,
)
    requires
        routes_response(before, first, first_route, between),
        first_route is Deliver,
        routes_response(between, second, second_route, after),
        response_id(outputs_of(second)) == response_id(outputs_of(first)),
    ensures
        second_route is UnknownRequest,
        after == between,
{
}

/// A notification is delivered only to a subscription that has a
/// subscriber: the one that its first member named "subscription" names by
/// a string; and it is delivered with the value of its first member named
/// "result", whatever that value is.
pub proof fn delivered_notification_carries_its_result<S>(
    subscribed: Map<Seq<char>, S>,
    notification: Notification,
    route: NotificationRoute,
)
    requires
        routes_notification(subscribed, notification, route),
        route is Deliver,
    ensures
        ({
            &&& notification.params matches Params::Object(members)
            &&& route matches NotificationRoute::Deliver { subscription, result }
            &&& exists|i: int| #[trigger] is_first_member(members@, "result"@, i) && result == members@[i].1
            &&& exists|j: int| #[trigger] is_first_member(members@, "subscription"@, j)
                && (members@[j].1 matches JsonValue::String(named) && named@ == subscription@)
            &&& subscribed.contains_key(subscription@)
        }),
{
    if let Params::Object(members) = notification.params {
        let m = members@;
        lemma_first_member_found(m, subscription_key());
        lemma_first_member_found(m, result_key());
        assert(is_first_member(m, "result"@, first_member(m, result_key())));
        assert(is_first_member(m, "subscription"@, first_member(m, subscription_key())));
    }
}

/// A response whose first answer carries the number of a request that
/// waits goes to that request, which stops waiting, whether that answer is
/// a success or a failure; each answer of it comes to the request as a
/// result: a success as its value, a failure as the server's error.
pub proof fn answer_reaches_waiting_request<P>(
    before: Map<RequestId, P>,
    response: Result<Response, Error>,
    route: ResponseRoute<P>,
    after: Map<RequestId, P>,
    n: u64,
)
    requires
        routes_response(before, response, route, after),
        outputs_of(response).len() > 0,
        outputs_of(response)[0].spec_id() == Id::Num(n),
        before.contains_key(n as usize),
    ensures
        ({
            &&& route matches ResponseRoute::Deliver { pending, results }
            &&& pending == before[n as usize]
            &&& results matches Ok(rs)
            &&& rs@.len() == outputs_of(response).len()
            &&& forall|i: int| 0 <= i < rs@.len() ==> (match outputs_of(response)[i] {
                Output::Failure(f) => #[trigger] rs@[i] == Err::<JsonValue, Error>((Error { kind: ErrorKind::Rpc(f.error) })),
                Output::Success(s) => rs@[i] == Ok::<JsonValue, Error>(s.result),
            })
        }),
        after == before.remove(n as usize),
        !after.contains_key(n as usize),
{
    let outputs = outputs_of(response);
    if let ResponseRoute::Deliver { pending, results } = route {
        if let Ok(rs) = results {
            batch_read_as_it_came(outputs, rs@);
        }
    }
}

/// Whether `notification` names subscription `id` by a string and carries
/// a result.
pub open spec fn names_subscription(notification: Notification, id: Seq<char>) -> bool {
    match notification.params {
        Params::Object(members) => {
            let m = members@;
            &&& has_member(m, subscription_key())
            &&& has_member(m, result_key())
            &&& match m[first_member(m, subscription_key())].1 {
                JsonValue::String(named) => named@ == id,
                _ => false,
            }
        },
        _ => false,
    }
}

/// Once `subscriber` has been made the subscriber of subscription `id`, a
/// notification that names `id` by a string and carries a result goes to
/// it, with that result.
pub proof fn notification_reaches_subscriber<S>(
    subscribed: Map<Seq<char>, S>,
    id: Seq<char>,
    subscriber: S,
    notification: Notification,
    route: NotificationRoute,
)
    requires
        names_subscription(notification, id),
        routes_notification(subscribed.insert(id, subscriber), notification, route),
    ensures
        route matches NotificationRoute::Deliver { subscription, result }
            && subscription@ == id
            && subscribed.insert(id, subscriber)[subscription@] == subscriber,
{
}

/// Once subscription `id` has lost its subscriber, a notification for it
/// finds no subscriber.
pub proof fn notification_after_unsubscribe<S>(
    subscribed: Map<Seq<char>, S>,
    id: Seq<char>,
    notification: Notification,
    route: NotificationRoute,
)
    requires
        names_subscription(notification, id),
        routes_notification(subscribed.remove(id), notification, route),
    ensures
        route matches NotificationRoute::UnknownSubscription(subscription) && subscription@ == id,
{
}

/// Taking away the subscriber of a subscription twice does what taking it
/// away once does, and taking it away from a subscription that has none
/// changes nothing.
pub proof fn unsubscribe_is_idempotent<S>(subscribed: Map<Seq<char>, S>, id: Seq<char>)
    ensures
        subscribed.remove(id).remove(id) == subscribed.remove(id),
        !subscribed.contains_key(id) ==> subscribed.remove(id) == subscribed,
{
    assert(subscribed.remove(id).remove(id) =~= subscribed.remove(id));
    if !subscribed.contains_key(id) {
        assert(subscribed.remove(id) =~= subscribed);
    }
}
} // verus!
