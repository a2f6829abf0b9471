//! The life of one call to the mempool.
//!
//! A call starts out pending. The transport either takes the request, and
//! the call is submitted, or refuses it, and the call has failed without
//! leaving the node. A submitted call ends when its answer or an error
//! comes back. The caller performs the I/O and reports each step as an
//! event.

use vstd::prelude::*;

verus! {

/// Where a call stands. `T` is what the call gives when it succeeds, `E`
/// the transport's error.
#[derive(Debug, PartialEq, Eq)]
pub enum CallState<T, E> {
    /// The request has not been handed to the transport yet.
    Pending,
    /// The transport took the request. The answer is awaited.
    Submitted,
    /// The answer came, and this was made of it.
    Resolved(T),
    /// The submitted call came back with this error.
    TransportFailed(E),
    /// The transport refused the request with this error.
    LocalFailed(E),
}

/// What the caller saw happen to a call.
#[derive(Debug, PartialEq, Eq)]
pub enum CallEvent<T, E> {
    /// The transport took the request.
    Accepted,
    /// The transport refused the request.
    Refused(E),
    /// The answer came, and this was made of it.
    Completed(T),
    /// An error came in place of the answer.
    Failed(E),
}

/// An event that cannot happen to a call where it stands. Both are handed
/// back as they were.
#[derive(Debug, PartialEq, Eq)]
pub struct OutOfTurn<T, E> {
    pub state: CallState<T, E>,
    pub event: CallEvent<T, E>,
}

impl<T, E> CallState<T, E> {
    /// Where the call stands after the event, if the event can happen
    /// where it stands now.
    pub open spec fn next(self, event: CallEvent<T, E>) -> Option<CallState<T, E>> {
        match (self, event) {
            (CallState::Pending, CallEvent::Accepted) => Some(CallState::Submitted),
            (CallState::Pending, CallEvent::Refused(error)) => Some(CallState::LocalFailed(error)),
            (CallState::Submitted, CallEvent::Completed(value)) => Some(CallState::Resolved(value)),
            (CallState::Submitted, CallEvent::Failed(error)) => Some(
                CallState::TransportFailed(error),
            ),
            _ => None,
        }
    }

    /// Whether the call is over.
    pub open spec fn is_terminal(self) -> bool {
        self is Resolved || self is TransportFailed || self is LocalFailed
    }

    /// What the call's future resolves to, once the call is over.
    pub open spec fn outcome(self) -> Option<Result<T, E>> {
        match self {
            CallState::Resolved(value) => Some(Ok(value)),
            CallState::TransportFailed(error) => Some(Err(error)),
            CallState::LocalFailed(error) => Some(Err(error)),
            _ => None,
        }
    }

    /// A call that has not been handed to the transport yet.
    pub fn new() -> (state: Self)
        ensures
            state == CallState::<T, E>::Pending,
    {
        CallState::Pending
    }

    /// Moves the call on by one event.
    ///
    /// An event that cannot happen where the call stands changes nothing,
    /// and comes back with the state.
    pub fn step(self, event: CallEvent<T, E>) -> (result: Result<Self, OutOfTurn<T, E>>)
        ensures
            result == match self.next(event) {
                Some(state) => Ok::<Self, OutOfTurn<T, E>>(state),
                None => Err(OutOfTurn { state: self, event }),
            },
    {
        match (self, event) {
            (CallState::Pending, CallEvent::Accepted) => Ok(CallState::Submitted),
            (CallState::Pending, CallEvent::Refused(error)) => Ok(CallState::LocalFailed(error)),
            (CallState::Submitted, CallEvent::Completed(value)) => Ok(CallState::Resolved(value)),
            (CallState::Submitted, CallEvent::Failed(error)) => Ok(
                CallState::TransportFailed(error),
            ),
            (state, event) => Err(OutOfTurn { state, event }),
        }
    }

    /// Whether the call is over.
    pub fn is_over(&self) -> (over: bool)
        ensures
            over == self.is_terminal(),
    {
        match self {
            CallState::Pending => false,
            CallState::Submitted => false,
            _ => true,
        }
    }

    /// What the call's future resolves to: the value of a resolved call,
    /// the error of a failed one, as it came. A call that is not over
    /// comes back as it is.
    pub fn into_outcome(self) -> (result: Result<Result<T, E>, Self>)
        ensures
            result == match self.outcome() {
                Some(outcome) => Ok::<Result<T, E>, Self>(outcome),
                None => Err(self),
            },
    {
        match self {
            CallState::Resolved(value) => Ok(Ok(value)),
            CallState::TransportFailed(error) => Ok(Err(error)),
            CallState::LocalFailed(error) => Ok(Err(error)),
            state => Err(state),
        }
    }
}

/// Where a new call stands after the events, in their order, if each of
/// them could happen in its turn.
pub open spec fn run<T, E>(events: Seq<CallEvent<T, E>>) -> Option<CallState<T, E>>
    decreases events.len(),
{
    if events.len() == 0 {
        Some(CallState::Pending)
    } else {
        match run(events.drop_last()) {
            Some(state) => state.next(events.last()),
            None => None,
        }
    }
}

/// A call that is over stays as it is: no event can happen to it.
pub proof fn lemma_over_is_final<T, E>(state: CallState<T, E>, event: CallEvent<T, E>)
    requires
        state.is_terminal(),
    ensures
        state.next(event) is None,
{
}

/// A call has an outcome exactly when it is over.
pub proof fn lemma_outcome_when_over<T, E>(state: CallState<T, E>)
    ensures
        state.outcome() is Some <==> state.is_terminal(),
{
}

/// A call that the transport refused was never submitted: the refusal is
/// the one thing that happened to it.
pub proof fn lemma_refused_never_submitted<T, E>(events: Seq<CallEvent<T, E>>)
    requires
        run(events) is Some,
        run(events)->Some_0 is LocalFailed,
    ensures
        events.len() == 1,
        events[0] == CallEvent::<T, E>::Refused(run(events)->Some_0->LocalFailed_0),
{
    lemma_runs(events);
}

/// An error of the transport is the call's outcome, as it came: one that
/// refuses the request, and one that comes in place of the answer.
pub proof fn lemma_errors_surface<T, E>(error: E)
    ensures
        run(seq![CallEvent::<T, E>::Refused(error)]) == Some(
            CallState::<T, E>::LocalFailed(error),
        ),
        run(seq![CallEvent::<T, E>::Accepted, CallEvent::<T, E>::Failed(error)]) == Some(
            CallState::<T, E>::TransportFailed(error),
        ),
        CallState::<T, E>::LocalFailed(error).outcome() == Some(Err::<T, E>(error)),
        CallState::<T, E>::TransportFailed(error).outcome() == Some(Err::<T, E>(error)),
{
    let refused = seq![CallEvent::<T, E>::Refused(error)];
    let failed = seq![CallEvent::<T, E>::Accepted, CallEvent::<T, E>::Failed(error)];
    assert(run(refused.drop_last()) == Some(CallState::<T, E>::Pending));
    assert(run(failed.drop_last().drop_last()) == Some(CallState::<T, E>::Pending));
    assert(run(failed.drop_last()) == Some(CallState::<T, E>::Submitted));
}

/// The whole life of a call: nothing yet, a refusal, an acceptance, or an
/// acceptance and then the answer or an error.
pub proof fn lemma_runs<T, E>(events: Seq<CallEvent<T, E>>)
    requires
        run(events) is Some,
    ensures
        match run(events)->Some_0 {
            CallState::Pending => events.len() == 0,
            CallState::Submitted => events =~= seq![CallEvent::Accepted],
            CallState::LocalFailed(error) => events =~= seq![CallEvent::Refused(error)],
            CallState::Resolved(value) => events =~= seq![
                CallEvent::Accepted,
                CallEvent::Completed(value),
            ],
            CallState::TransportFailed(error) => events =~= seq![
                CallEvent::Accepted,
                CallEvent::Failed(error),
            ],
        },
    decreases events.len(),
{
    if events.len() > 0 {
        lemma_runs(events.drop_last());
    }
}

} // verus!
