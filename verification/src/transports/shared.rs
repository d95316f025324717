//! The state of a request in flight.

use vstd::prelude::*;
use crate::{Async, RequestId};
use crate::error::{Error, ErrorKind, IoKind};

verus! {

/// Where a request in flight stands.
#[derive(Debug, PartialEq)]
pub enum RequestState {
    /// The request has been handed to the transport, which reported how
    /// that went (until the report has been taken).
    Sending(Option<Result<(), Error>>),
    /// The request is waiting for its answer.
    WaitingForResponse,
    /// Nothing more will come.
    Done,
}

/// What polling the channel that an answer comes on gave.
#[derive(Debug, PartialEq)]
pub enum Received<O> {
    /// The answer, or the error that came in its place.
    Ready(Result<O, Error>),
    /// Nothing yet.
    NotReady,
    /// The channel was closed before anything came.
    Canceled,
}

/// A request in flight, which yields what `extract` makes of its answer.
pub struct Response<T> {
    id: RequestId,
    state: RequestState,
    extract: T,
}

/// The state a request in flight is in after one poll from `state`.
pub open spec fn state_after_poll(state: RequestState) -> RequestState {
    match state {
        RequestState::Sending(Some(Err(_))) => RequestState::Sending(None),
        RequestState::Sending(_) => RequestState::WaitingForResponse,
        RequestState::WaitingForResponse => RequestState::WaitingForResponse,
        RequestState::Done => RequestState::Done,
    }
}

/// Whether a poll from `state` polls the channel of the answer.
pub open spec fn polls_channel(state: RequestState) -> bool {
    match state {
        RequestState::Sending(Some(Err(_))) => false,
        RequestState::Sending(_) => true,
        RequestState::WaitingForResponse => true,
        RequestState::Done => false,
    }
}

/// The error that a request reports when its channel closes without an answer.
pub open spec fn timed_out() -> Error {
    Error { kind: ErrorKind::Io(IoKind::TimedOut) }
}

/// Whether `r` is what a poll yields when the channel gave `received` and
/// answers are extracted with `extract`.
pub open spec fn outcome_of_received<O, Out, T: Fn(O) -> Result<Out, Error>>(
    extract: T,
    received: Received<O>,
    r: Result<Async<Out>, Error>,
) -> bool {
    match received {
        Received::Canceled => r == Err::<Async<Out>, Error>(timed_out()),
        Received::NotReady => r == Ok::<Async<Out>, Error>(Async::NotReady),
        Received::Ready(Err(e)) => r == Err::<Async<Out>, Error>(e),
        Received::Ready(Ok(answer)) => exists|x: Result<Out, Error>|
            #[trigger] extract.ensures((answer,), x) && r == match x {
                Ok(out) => Ok::<Async<Out>, Error>(Async::Ready(out)),
                Err(e) => Err::<Async<Out>, Error>(e),
            },
    }
}

impl<T> Response<T> {
    /// The id the request was sent with.
    pub closed spec fn spec_id(&self) -> RequestId {
        self.id
    }

    /// Where the request stands.
    pub closed spec fn spec_state(&self) -> RequestState {
        self.state
    }

    /// What turns the answer into the result.
    pub closed spec fn spec_extract(&self) -> T {
        self.extract
    }

    /// A request with id `id` that was just handed to the transport, which
    /// reported `result`.
    pub fn new(id: RequestId, result: Result<(), Error>, extract: T) -> (r: Self)
        ensures
            r.spec_id() == id,
            r.spec_state() == RequestState::Sending(Some(result)),
            r.spec_extract() == extract,
    {
        Response { id: id, state: RequestState::Sending(Some(result)), extract: extract }
    }

    /// The id the request was sent with.
    pub fn id(&self) -> (r: RequestId)
        ensures
            r == self.spec_id(),
    {
        self.id
    }

    /// Where the request stands.
    pub fn state(&self) -> (r: &RequestState)
        ensures
            *r == self.spec_state(),
    {
        &self.state
    }

    /// Polls the request once. A failed hand-over is reported first; after
    /// it the request waits for its answer, which `receive` polls for.
    pub fn poll<R, O, Out>(&mut self, receive: R) -> (r: Result<Async<Out>, Error>)
        where
            R: FnOnce() -> Received<O>,
            T: Fn(O) -> Result<Out, Error>,
        requires
            receive.requires(()),
            forall|answer: O| old(self).spec_extract().requires((answer,)),
        ensures
            final(self).spec_id() == old(self).spec_id(),
            final(self).spec_extract() == old(self).spec_extract(),
            final(self).spec_state() == state_after_poll(old(self).spec_state()),
            match old(self).spec_state() {
                RequestState::Sending(Some(Err(e))) => r == Err::<Async<Out>, Error>(e),
                RequestState::Done => r == Err::<Async<Out>, Error>(Error { kind: ErrorKind::Unreachable }),
                _ => exists|received: Received<O>|
                    #[trigger] receive.ensures((), received)
                        && outcome_of_received(old(self).spec_extract(), received, r),
            },
    {
        let mut state = RequestState::Done;
        std::mem::swap(&mut state, &mut self.state);
        match state {
            RequestState::Sending(Some(Err(e))) => {
                self.state = RequestState::Sending(None);
                return Err(e);
            },
            RequestState::Sending(_) => {
                self.state = RequestState::WaitingForResponse;
            },
            RequestState::WaitingForResponse => {
                self.state = RequestState::WaitingForResponse;
            },
            RequestState::Done => {
                return Err(Error::new(ErrorKind::Unreachable));
            },
        }
        assert(self.extract == old(self).spec_extract());
        let received = receive();
        let ghost got = received;
        let r = match received {
            Received::Canceled => Err(Error::new(ErrorKind::Io(IoKind::TimedOut))),
            Received::NotReady => Ok(Async::NotReady),
            Received::Ready(Err(e)) => Err(e),
            Received::Ready(Ok(answer)) => {
                let x = (self.extract)(answer);
                let ghost xg = x;
                let r = match x {
                    Ok(out) => Ok(Async::Ready(out)),
                    Err(e) => Err(e),
                };
                assert(self.extract.ensures((answer,), xg));
                r
            },
        };
        assert(receive.ensures((), got) && outcome_of_received(self.extract, got, r));
        r
    }
}


/// When the answer has come and the extract step makes `made` of it, the
/// poll yields exactly that: its value as ready, or that very error,
/// whatever its kind.
pub proof fn extracted_answer_is_yielded<O, Out, T: Fn(O) -> Result<Out, Error>>(
    extract: T,
    answer: O,
    made: Result<Out, Error>,
    r: Result<Async<Out>, Error>,
)
    requires
        forall|x: Result<Out, Error>| #[trigger] extract.ensures((answer,), x) ==> x == made,
        outcome_of_received(extract, Received::Ready(Ok(answer)), r),
    ensures
        made matches Err(e) ==> r == Err::<Async<Out>, Error>(e),
        made matches Ok(out) ==> r == Ok::<Async<Out>, Error>(Async::Ready(out)),
{
}

/// A poll yields the timeout only where the channel closed without an
/// answer, or the timeout itself came: in place of the answer, or from the
/// extract step.
pub proof fn timeout_only_when_closed<O, Out, T: Fn(O) -> Result<Out, Error>>(
    extract: T,
    received: Received<O>,
    r: Result<Async<Out>, Error>,
)
    requires
        outcome_of_received(extract, received, r),
        r == Err::<Async<Out>, Error>(timed_out()),
    ensures
        received is Canceled
            || received == Received::<O>::Ready(Err(timed_out()))
            || (received matches Received::Ready(Ok(answer))
                && extract.ensures((answer,), Err::<Out, Error>(timed_out()))),
{
    if let Received::Ready(Ok(answer)) = received {
        let x = choose|x: Result<Out, Error>|
            #[trigger] extract.ensures((answer,), x) && r == match x {
                Ok(out) => Ok::<Async<Out>, Error>(Async::Ready(out)),
                Err(e) => Err::<Async<Out>, Error>(e),
            };
        assert(x == Err::<Out, Error>(timed_out()));
    }
}

/// A failed hand-over is reported by exactly one poll, which polls no
/// channel; every poll after it waits for the answer.
pub proof fn failed_send_reported_once(e: Error)
    ensures
        !polls_channel(RequestState::Sending(Some(Err(e)))),
        state_after_poll(RequestState::Sending(Some(Err(e)))) == RequestState::Sending(None),
        polls_channel(RequestState::Sending(None)),
        state_after_poll(RequestState::Sending(None)) == RequestState::WaitingForResponse,
{
}

/// A request that waits for its answer keeps waiting, and every poll of it
/// polls the channel.
pub proof fn waiting_is_stable()
    ensures
        polls_channel(RequestState::WaitingForResponse),
        state_after_poll(RequestState::WaitingForResponse) == RequestState::WaitingForResponse,
{
}

/// A request whose hand-over went well waits for its answer from its first
/// poll on.
pub proof fn sent_request_waits(sent: Option<Result<(), Error>>)
    requires
        !(sent matches Some(Err(_))),
    ensures
        polls_channel(RequestState::Sending(sent)),
        state_after_poll(RequestState::Sending(sent)) == RequestState::WaitingForResponse,
{
}

/// The state a request in flight is in after `polls` polls from `state`.
pub open spec fn state_after_polls(state: RequestState, polls: nat) -> RequestState
    decreases polls,
{
    if polls == 0 {
        state
    } else {
        state_after_poll(state_after_polls(state, (polls - 1) as nat))
    }
}

/// A request made by `new` never reaches `Done`, however often it is
/// polled: no poll of it reports `Unreachable`, and each poll either
/// reports the failed hand-over or polls the channel of the answer.
pub proof fn new_request_never_done(result: Result<(), Error>, polls: nat)
    ensures
        !(state_after_polls(RequestState::Sending(Some(result)), polls) is Done),
        state_after_polls(RequestState::Sending(Some(result)), polls) is Sending
            || polls_channel(state_after_polls(RequestState::Sending(Some(result)), polls)),
    decreases polls,
{
    if polls > 0 {
        new_request_never_done(result, (polls - 1) as nat);
    }
}
} // verus!
