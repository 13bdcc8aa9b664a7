//! Relaying a model's response stream to the consumer: which output items
//! the final response record carries, and when a failure is logged.
//!
//! The relay passes every event on, in order, and keeps the items seen so
//! far. The first completion hands them over, with its response id, as the
//! last response (once only); the first failure is logged (once only).

use vstd::prelude::*;

verus! {

/// What the relay has seen of a stream.
pub struct RelayState<T> {
    /// Output items received since the start (until the last response
    /// takes them).
    pub items_added: Vec<T>,
    /// A failure has already been logged.
    pub logged_error: bool,
    /// The last response has already been handed over.
    pub last_response_sent: bool,
}

/// The abstract value of a [`RelayState`].
pub ghost struct RelayView<T> {
    pub items: Seq<T>,
    pub logged_error: bool,
    pub last_response_sent: bool,
}

impl<T> View for RelayState<T> {
    type V = RelayView<T>;

    open spec fn view(&self) -> RelayView<T> {
        RelayView {
            items: self.items_added@,
            logged_error: self.logged_error,
            last_response_sent: self.last_response_sent,
        }
    }
}

/// One event of the upstream stream: output items `T`, token usage `U`,
/// other events `O` (text deltas, reasoning, ...) and errors `E`.
pub enum RelayEvent<T, U, O, E> {
    /// An output item is done.
    OutputItemDone(T),
    /// The response is complete.
    Completed { response_id: String, token_usage: U, end_turn: Option<bool> },
    /// Any other event.
    Other(O),
    /// The upstream reported an error.
    Failed(E),
}

/// The record of a completed response: its id and the output items received
/// before its completion.
pub struct CompletedResponse<T> {
    pub response_id: String,
    pub items_added: Vec<T>,
}

/// What the relay does with one event.
pub struct RelayOutput<T, U, O, E> {
    /// The event to pass on to the consumer: every event is passed on, in
    /// order; a `Failed` one as the provider's mapping of its error, which
    /// does not end the stream.
    pub forward: RelayEvent<T, U, O, E>,
    /// The record of the last response, when it is handed over now.
    pub last_response: Option<CompletedResponse<T>>,
    /// The failure is to be logged now.
    pub log_error: bool,
}

/// The state before any event.
pub open spec fn initial_relay<T>() -> RelayView<T> {
    RelayView { items: Seq::empty(), logged_error: false, last_response_sent: false }
}

/// One step: the next state, and the response id and items handed over (if
/// any) and whether the failure is logged.
pub open spec fn spec_relay_step<T, U, O, E>(s: RelayView<T>, e: RelayEvent<T, U, O, E>) -> (
    RelayView<T>,
    (Option<(Seq<char>, Seq<T>)>, bool),
) {
    match e {
        RelayEvent::OutputItemDone(x) => (
            RelayView { items: s.items.push(x), ..s },
            (None, false),
        ),
        RelayEvent::Completed { response_id, .. } => if !s.last_response_sent {
            (
                RelayView { items: Seq::empty(), last_response_sent: true, ..s },
                (Some((response_id@, s.items)), false),
            )
        } else {
            (s, (None, false))
        },
        RelayEvent::Other(_) => (s, (None, false)),
        RelayEvent::Failed(_) => if !s.logged_error {
            (RelayView { logged_error: true, ..s }, (None, true))
        } else {
            (s, (None, false))
        },
    }
}

/// The state after a sequence of events and the outputs of each step.
pub open spec fn spec_relay_run<T, U, O, E>(s: RelayView<T>, events: Seq<RelayEvent<T, U, O, E>>) -> (
    RelayView<T>,
    Seq<(Option<(Seq<char>, Seq<T>)>, bool)>,
)
    decreases events.len(),
{
    if events.len() == 0 {
        (s, Seq::empty())
    } else {
        let (mid, outs) = spec_relay_run(s, events.drop_last());
        let (next, out) = spec_relay_step(mid, events.last());
        (next, outs.push(out))
    }
}

impl<T> RelayState<T> {
    /// The state before any event.
    pub fn new() -> (r: Self)
        ensures
            r@ == initial_relay::<T>(),
    {
        RelayState { items_added: Vec::new(), logged_error: false, last_response_sent: false }
    }
}

/// Takes one event of the stream into account: passes it on unchanged,
/// records an output item, hands over the record of the last response at
/// the first completion, and asks for the first failure to be logged.
/// Output items are handles (`Copy`), such as indices into the caller's
/// store of items, so that the record and the passed-on event hold the same
/// item.
pub fn relay_step<T: Copy, U, O, E>(state: &mut RelayState<T>, event: RelayEvent<T, U, O, E>) -> (r:
    RelayOutput<T, U, O, E>)
    ensures
        ({
            let (next, out) = spec_relay_step(old(state)@, event);
            &&& final(state)@ == next
            &&& r.forward == event
            &&& match out.0 {
                Some((id, items)) => r.last_response matches Some(c) && c.response_id@ == id
                    && c.items_added@ == items,
                None => r.last_response is None,
            }
            &&& r.log_error == out.1
        }),
{
    match event {
        RelayEvent::OutputItemDone(item) => {
            state.items_added.push(item);
            RelayOutput {
                forward: RelayEvent::OutputItemDone(item),
                last_response: None,
                log_error: false,
            }
        },
        RelayEvent::Completed { response_id, token_usage, end_turn } => {
            let last_response = if !state.last_response_sent {
                state.last_response_sent = true;
                let mut items: Vec<T> = Vec::new();
                std::mem::swap(&mut items, &mut state.items_added);
                Some(CompletedResponse { response_id: response_id.clone(), items_added: items })
            } else {
                None
            };
            RelayOutput {
                forward: RelayEvent::Completed { response_id, token_usage, end_turn },
                last_response,
                log_error: false,
            }
        },
        RelayEvent::Other(other) => RelayOutput {
            forward: RelayEvent::Other(other),
            last_response: None,
            log_error: false,
        },
        RelayEvent::Failed(err) => {
            let log_error = !state.logged_error;
            state.logged_error = true;
            RelayOutput { forward: RelayEvent::Failed(err), last_response: None, log_error }
        },
    }
}

} // verus!
