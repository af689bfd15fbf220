//! Decisions of the gain reconfiguration service.
//!
//! The service listens for new gain pairs and answers queries for the
//! current pair. What counts as the current pair is decided here: the last
//! pair that was received and decoded, or the pair the service started
//! with. Receiving, decoding and replying happen outside.
use vstd::prelude::*;

verus! {

/// What reaches the gain reconfiguration service.
#[derive(Debug)]
pub enum ParameterEvent<P> {
    /// A gain pair arrived and was decoded.
    Received(P),
    /// A message arrived that did not decode to a gain pair.
    Malformed,
    /// A query for the current gain pair.
    Queried,
}

/// What the service does in answer to an event.
#[derive(Debug)]
pub enum ParameterAction<P> {
    /// Hand the pair to the controller.
    Apply(P),
    /// Drop the message; nothing changes.
    Ignore,
    /// Answer the query with the pair.
    Reply(P),
}

/// The pair the service holds after `event`, and what it does, when it held
/// `current` before.
pub open spec fn exchange_step<P>(current: P, event: ParameterEvent<P>) -> (P, ParameterAction<P>) {
    match event {
        ParameterEvent::Received(p) => (p, ParameterAction::Apply(p)),
        ParameterEvent::Malformed => (current, ParameterAction::Ignore),
        ParameterEvent::Queried => (current, ParameterAction::Reply(current)),
    }
}

/// The pair held after a sequence of events, taken in order.
pub open spec fn held_after<P>(current: P, events: Seq<ParameterEvent<P>>) -> P
    decreases events.len(),
{
    if events.len() == 0 {
        current
    } else {
        held_after(exchange_step(current, events[0]).0, events.drop_first())
    }
}

/// The state of the gain reconfiguration service: the gain pair it reports.
pub struct ParameterExchange<P> {
    current: P,
}

impl<P> View for ParameterExchange<P> {
    type V = P;

    closed spec fn view(&self) -> P {
        self.current
    }
}

impl<P: Copy> ParameterExchange<P> {
    /// A service that reports `initial` until a pair is received.
    pub fn new(initial: P) -> (r: ParameterExchange<P>)
        ensures
            r@ == initial,
    {
        ParameterExchange { current: initial }
    }

    /// The pair the service reports.
    pub fn current(&self) -> (r: P)
        ensures
            r == self@,
    {
        self.current
    }

    /// Takes in one event: a received pair becomes the reported one and is
    /// applied; a malformed message is dropped; a query is answered with the
    /// reported pair.
    pub fn handle(&mut self, event: ParameterEvent<P>) -> (r: ParameterAction<P>)
        ensures
            (final(self)@, r) == exchange_step(old(self)@, event),
    {
        match event {
            ParameterEvent::Received(p) => {
                self.current = p;
                ParameterAction::Apply(p)
            },
            ParameterEvent::Malformed => ParameterAction::Ignore,
            ParameterEvent::Queried => ParameterAction::Reply(self.current),
        }
    }
}

/// A query is answered with the pair the service holds: the one carried by
/// the last received message, where message `j` is received and none after
/// it is.
pub proof fn lemma_reply_is_last_received<P>(
    initial: P,
    events: Seq<ParameterEvent<P>>,
    j: int,
    p: P,
)
    requires
        0 <= j < events.len(),
        events[j] == ParameterEvent::Received(p),
        forall|k: int| j < k < events.len() ==> !(events[k] is Received),
    ensures
        held_after(initial, events) == p,
        exchange_step(held_after(initial, events), ParameterEvent::Queried).1
            == ParameterAction::Reply(p),
    decreases events.len(),
{
    let next = exchange_step(initial, events[0]).0;
    let rest = events.drop_first();
    if j == 0 {
        lemma_nothing_received_keeps(next, rest);
    } else {
        assert(rest[j - 1] == events[j]);
        assert forall|k: int| j - 1 < k < rest.len() implies !(rest[k] is Received) by {
            assert(rest[k] == events[k + 1]);
        }
        lemma_reply_is_last_received(next, rest, j - 1, p);
    }
}

/// Until a pair is received, the service keeps the pair it held: malformed
/// messages and queries change nothing.
pub proof fn lemma_nothing_received_keeps<P>(initial: P, events: Seq<ParameterEvent<P>>)
    requires
        forall|k: int| 0 <= k < events.len() ==> !(events[k] is Received),
    ensures
        held_after(initial, events) == initial,
    decreases events.len(),
{
    if events.len() > 0 {
        let rest = events.drop_first();
        assert(!(events[0] is Received));
        assert forall|k: int| 0 <= k < rest.len() implies !(rest[k] is Received) by {
            assert(rest[k] == events[k + 1]);
        }
        lemma_nothing_received_keeps(initial, rest);
    }
}

} // verus!
