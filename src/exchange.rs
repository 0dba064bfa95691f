//! One outbound call as a small state machine: connect, send, finish.
//!
//! The transport layer performs each `Command` and reports back an `Event`;
//! `step` decides what happens next. A call is attempted once: it ends in the
//! response of the remote service or in a typed failure, never in a retry.
use vstd::prelude::*;

use crate::route::{path_of, Operation};
use crate::transport::{address_parses, parse_target, transport_error_text, Target};

verus! {

/// How an outbound call failed.
#[derive(Clone, Debug, PartialEq, Eq)]
pub enum SenderError {
    /// The connection to the service could not be made: the address is not a
    /// valid URI, the service is unreachable, or the handshake failed.
    Connection { message: String },
    /// The service answered the call with a failure status.
    Remote { code: i32, message: String },
    /// The caller gave up waiting before the call completed.
    Cancelled,
}

impl SenderError {
    /// Whether the failure happened while connecting.
    pub fn is_connection(&self) -> (r: bool)
        ensures
            r == (*self is Connection),
    {
        match self {
            SenderError::Connection { .. } => true,
            _ => false,
        }
    }

    /// Whether the service itself refused the call.
    pub fn is_remote(&self) -> (r: bool)
        ensures
            r == (*self is Remote),
    {
        match self {
            SenderError::Remote { .. } => true,
            _ => false,
        }
    }

    /// The status code sent by the service, for a remote failure.
    pub fn code(&self) -> (r: Option<i32>)
        ensures
            r == (match *self {
                SenderError::Remote { code, .. } => Some(code),
                _ => None,
            }),
    {
        match self {
            SenderError::Remote { code, .. } => Some(*code),
            _ => None,
        }
    }
}

/// Where an outbound call stands.
#[derive(Clone, Debug)]
pub enum Exchange<Q> {
    /// Waiting for the connection; the request is held until it is made.
    Connecting { op: Operation, request: Q },
    /// The request was sent; waiting for the answer.
    Awaiting { op: Operation },
    /// The call is over.
    Finished,
}

/// What the transport layer reports back.
#[derive(Clone, Debug)]
pub enum Event<R> {
    /// The connection was made.
    Connected,
    /// The connection could not be made.
    ConnectFailed { message: String },
    /// The service answered with a response.
    Replied { response: R },
    /// The service answered with a failure status.
    Rejected { code: i32, message: String },
    /// The caller's deadline passed or the caller cancelled the call.
    Cancelled,
}

/// What the transport layer is asked to do next.
#[derive(Debug)]
pub enum Command<Q, R> {
    /// Open a new connection to this target.
    Connect { target: Target },
    /// Call the method at `path` with `request` on the open connection.
    Send { path: String, request: Q },
    /// Close the connection, if any, and hand `result` to the caller.
    Finish { result: Result<R, SenderError> },
}

/// Whether `event` can happen while the call stands at `state`.
pub open spec fn accepts<Q, R>(state: Exchange<Q>, event: Event<R>) -> bool {
    match state {
        Exchange::Connecting { .. } => event is Connected || event is ConnectFailed || event is Cancelled,
        Exchange::Awaiting { .. } => event is Replied || event is Rejected || event is Cancelled,
        Exchange::Finished => false,
    }
}

/// Where the call stands after `event`.
pub open spec fn next<Q, R>(state: Exchange<Q>, event: Event<R>) -> Exchange<Q> {
    match (state, event) {
        (Exchange::Connecting { op, .. }, Event::Connected) => Exchange::Awaiting { op },
        _ => Exchange::Finished,
    }
}

/// The result that a call ends in on `event`, if the event ends it.
pub open spec fn result_of<R>(event: Event<R>) -> Option<Result<R, SenderError>> {
    match event {
        Event::Connected => None,
        Event::ConnectFailed { message } => Some(Err(SenderError::Connection { message })),
        Event::Replied { response } => Some(Ok(response)),
        Event::Rejected { code, message } => Some(Err(SenderError::Remote { code, message })),
        Event::Cancelled => Some(Err(SenderError::Cancelled)),
    }
}

/// Whether `command` finishes the call with `result`.
pub open spec fn finishes_with<Q, R>(command: Command<Q, R>, result: Result<R, SenderError>) -> bool {
    command matches Command::Finish { result: res } && res == result
}

/// Whether `command` opens a connection to `address`.
pub open spec fn connects_to<Q, R>(command: Command<Q, R>, address: Seq<char>) -> bool {
    command matches Command::Connect { target } && target@ == address
}

/// Whether `command` sends `request` to the method of `op`.
pub open spec fn sends<Q, R>(command: Command<Q, R>, op: Operation, request: Q) -> bool {
    command matches Command::Send { path, request: q } && path@ == path_of(op) && q == request
}

/// Where a call stands once it has looked up its address.
pub open spec fn opening<Q>(op: Operation, address: Seq<char>, request: Q) -> Exchange<Q> {
    if address_parses(address) {
        Exchange::Connecting { op, request }
    } else {
        Exchange::Finished
    }
}

impl<Q> Exchange<Q> {
    /// Whether `event` can happen at this point of the call.
    pub fn accepts<R>(&self, event: &Event<R>) -> (r: bool)
        ensures
            r == accepts(*self, *event),
    {
        match self {
            Exchange::Connecting { .. } => match event {
                Event::Connected | Event::ConnectFailed { .. } | Event::Cancelled => true,
                _ => false,
            },
            Exchange::Awaiting { .. } => match event {
                Event::Replied { .. } | Event::Rejected { .. } | Event::Cancelled => true,
                _ => false,
            },
            Exchange::Finished => false,
        }
    }

    /// Whether the call is over.
    pub fn is_finished(&self) -> (r: bool)
        ensures
            r == (*self is Finished),
    {
        match self {
            Exchange::Finished => true,
            _ => false,
        }
    }
}

/// Starts a call of `op` at `address`: asks for a connection if the address
/// is a valid URI, and otherwise ends the call in a connection failure.
pub fn open<Q, R>(op: Operation, address: &String, request: Q) -> (r: (Exchange<Q>, Command<Q, R>))
    ensures
        r.0 == opening(op, address@, request),
        address_parses(address@) ==> connects_to(r.1, address@),
        !address_parses(address@) ==> (r.1 matches Command::Finish { result: Err(SenderError::Connection { .. }) }),
{
    match parse_target(address) {
        Ok(target) => (Exchange::Connecting { op, request }, Command::Connect { target }),
        Err(e) => {
            let message = transport_error_text(&e);
            (Exchange::Finished, Command::Finish { result: Err(SenderError::Connection { message }) })
        },
    }
}

/// Moves a call on by one event reported by the transport layer.
pub fn step<Q, R>(state: Exchange<Q>, event: Event<R>) -> (r: (Exchange<Q>, Command<Q, R>))
    requires
        accepts(state, event),
    ensures
        r.0 == next(state, event),
        result_of(event) is Some ==> finishes_with(r.1, result_of(event)->Some_0),
        result_of(event) is None ==> sends(r.1, state->Connecting_op, state->Connecting_request),
{
    match event {
        Event::Connected => match state {
            Exchange::Connecting { op, request } => {
                let path = op.path();
                (Exchange::Awaiting { op }, Command::Send { path, request })
            },
            // not reached: `Connected` is accepted only while connecting
            _ => (Exchange::Finished, Command::Finish { result: Err(SenderError::Cancelled) }),
        },
        Event::ConnectFailed { message } => (
            Exchange::Finished,
            Command::Finish { result: Err(SenderError::Connection { message }) },
        ),
        Event::Replied { response } => (Exchange::Finished, Command::Finish { result: Ok(response) }),
        Event::Rejected { code, message } => (
            Exchange::Finished,
            Command::Finish { result: Err(SenderError::Remote { code, message }) },
        ),
        Event::Cancelled => (Exchange::Finished, Command::Finish { result: Err(SenderError::Cancelled) }),
    }
}

/// The result that a call which began connecting ends in after `first` and,
/// if it was still waiting then, `second`.
pub open spec fn outcome<R>(first: Event<R>, second: Event<R>) -> Option<Result<R, SenderError>> {
    if first is Connected {
        result_of(second)
    } else {
        result_of(first)
    }
}

/// A call ends after at most two events, in the response the service sent or
/// in a typed failure: a connection failure with the transport's message, the
/// status the service refused it with, or a cancellation. No event that the
/// transport reports leaves it waiting for a third.
pub proof fn lemma_call_settles<Q, R>(op: Operation, request: Q, first: Event<R>, second: Event<R>)
    requires
        accepts(Exchange::Connecting { op, request }, first),
        first is Connected ==> accepts(Exchange::<Q>::Awaiting { op }, second),
    ensures
        outcome(first, second) is Some,
        first is Connected ==> next(next(Exchange::Connecting { op, request }, first), second) is Finished,
        !(first is Connected) ==> next(Exchange::Connecting { op, request }, first) is Finished,
        outcome(first, second) matches Some(Ok(response)) ==> first is Connected
            && second == (Event::Replied { response }),
        outcome(first, second) matches Some(Err(SenderError::Connection { message }))
            ==> first == (Event::<R>::ConnectFailed { message }),
        outcome(first, second) matches Some(Err(SenderError::Remote { code, message }))
            ==> first is Connected && second == (Event::<R>::Rejected { code, message }),
        first is Connected ==> (second matches Event::Replied { response }
            ==> outcome(first, second) == Some(Ok::<R, SenderError>(response))),
{
}

} // verus!
