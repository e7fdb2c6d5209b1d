//! Signals on their way from the compositor to the bus.

use vstd::prelude::*;

use crate::channel::{send_event, Receipt, Refusal};
use crate::event::SignalEvent;
use crate::state::InputCaptureState;

verus! {

/// What became of a signal event that was to be sent to the service.
#[verifier::reject_recursive_types(P)]
pub enum SignalDelivery<P> {
    /// It is in the channel.
    Queued(Receipt<P>),
    /// The service no longer receives; the event comes back in the refusal.
    Disconnected(Refusal<P>),
    /// There is no channel; the event comes back.
    NoChannel(SignalEvent<P>),
}

/// What the outcome of sending says: the event is in the channel, or nobody receives it.
pub fn delivery<P>(sent: Result<Receipt<P>, Refusal<P>>) -> (delivery: SignalDelivery<P>)
    ensures
        delivery == match sent {
            Ok(receipt) => SignalDelivery::<P>::Queued(receipt),
            Err(refusal) => SignalDelivery::<P>::Disconnected(refusal),
        },
{
    match sent {
        Ok(receipt) => SignalDelivery::Queued(receipt),
        Err(refusal) => SignalDelivery::Disconnected(refusal),
    }
}

impl<P, F, E> InputCaptureState<P, F, E> {
    /// Send a signal event to the D-Bus thread for emission
    ///
    /// Where there is a channel, the outcome is the channel's receipt for the event or its refusal of
    /// the event. Where there is none, the event comes back.
    pub fn emit_signal(&self, event: SignalEvent<P>) -> (outcome: SignalDelivery<P>)
        ensures
            match outcome {
                SignalDelivery::Queued(receipt) => {
                    &&& self.signal_tx == Some(receipt.channel())
                    &&& receipt.event() == event
                },
                SignalDelivery::Disconnected(refusal) => {
                    &&& self.signal_tx == Some(refusal.channel())
                    &&& refusal.event() == event
                },
                SignalDelivery::NoChannel(back) => self.signal_tx is None && back == event,
            },
    {
        match &self.signal_tx {
            Some(tx) => delivery(send_event(tx, event)),
            None => SignalDelivery::NoChannel(event),
        }
    }
}

/// What the service does next to bring signal events from the channel to the bus.
#[derive(Debug)]
pub enum PumpStep<P> {
    /// Wait for an event from the channel.
    Receive,
    /// Look up the interface that the event is to be emitted from.
    Resolve(SignalEvent<P>),
    /// Emit the event as a signal.
    Emit(SignalEvent<P>),
    /// Stop for good.
    Stop,
}

impl<P> PumpStep<P> {
    /// After waiting: an event is to be emitted; a closed channel ends it all.
    pub open spec fn spec_received(received: Option<SignalEvent<P>>) -> Self {
        match received {
            Some(event) => PumpStep::Resolve(event),
            None => PumpStep::Stop,
        }
    }

    /// After the lookup: the event is emitted, or left out where there is no interface.
    pub open spec fn spec_resolved(event: SignalEvent<P>, found: bool) -> Self {
        if found {
            PumpStep::Emit(event)
        } else {
            PumpStep::Receive
        }
    }

    /// After emitting, whether or not that succeeded, the next event is waited for.
    pub open spec fn spec_emitted(_succeeded: bool) -> Self {
        PumpStep::Receive
    }

    /// The step after waiting for an event; `None` stands for a closed channel.
    pub fn received(received: Option<SignalEvent<P>>) -> (next: Self)
        ensures
            next == Self::spec_received(received),
    {
        match received {
            Some(event) => PumpStep::Resolve(event),
            None => PumpStep::Stop,
        }
    }

    /// The step after looking up the interface.
    pub fn resolved(event: SignalEvent<P>, found: bool) -> (next: Self)
        ensures
            next == Self::spec_resolved(event, found),
    {
        if found {
            PumpStep::Emit(event)
        } else {
            PumpStep::Receive
        }
    }

    /// The step after emitting a signal.
    pub fn emitted(_succeeded: bool) -> (next: Self)
        ensures
            next == Self::spec_emitted(_succeeded),
    {
        PumpStep::Receive
    }
}

/// What comes back from outside while one event is handled: the event, whether the interface was
/// found, and whether emitting succeeded.
pub struct PumpRound<P> {
    pub event: SignalEvent<P>,
    pub found: bool,
    pub succeeded: bool,
}

/// The step that follows a whole round, and what the round emitted.
pub open spec fn after_round<P>(round: PumpRound<P>) -> (PumpStep<P>, Seq<SignalEvent<P>>) {
    match PumpStep::spec_received(Some(round.event)) {
        PumpStep::Resolve(event) => match PumpStep::spec_resolved(event, round.found) {
            PumpStep::Emit(signal) => (PumpStep::spec_emitted(round.succeeded), seq![signal]),
            next => (next, seq![]),
        },
        next => (next, seq![]),
    }
}

/// The step that follows a number of rounds, begun by waiting for an event, and what they emitted.
/// Rounds that would follow another step are not run.
pub open spec fn after_rounds<P>(rounds: Seq<PumpRound<P>>) -> (PumpStep<P>, Seq<SignalEvent<P>>)
    decreases rounds.len(),
{
    if rounds.len() == 0 {
        (PumpStep::Receive, seq![])
    } else {
        let (step, emitted) = after_rounds(rounds.drop_last());
        match step {
            PumpStep::Receive => {
                let (next, more) = after_round(rounds.last());
                (next, emitted + more)
            },
            _ => (step, emitted),
        }
    }
}

/// However its rounds turn out, the service goes on waiting for events as long as the channel gives
/// it any. It emits each event once, in the order of the channel, and leaves out just those whose
/// interface was not found.
pub proof fn lemma_pump_emits_in_order<P>(rounds: Seq<PumpRound<P>>)
    ensures
        after_rounds(rounds).0 == PumpStep::<P>::Receive,
        after_rounds(rounds).1 == rounds.filter(|round: PumpRound<P>| round.found).map_values(
            |round: PumpRound<P>| round.event,
        ),
    decreases rounds.len(),
{
    reveal(Seq::filter);
    let found = |round: PumpRound<P>| round.found;
    let event = |round: PumpRound<P>| round.event;
    if rounds.len() == 0 {
        assert(after_rounds(rounds).1 =~= rounds.filter(found).map_values(event));
    } else {
        lemma_pump_emits_in_order(rounds.drop_last());
        let before = rounds.drop_last().filter(found);
        assert(before.push(rounds.last()).map_values(event) =~= before.map_values(event).push(
            rounds.last().event,
        ));
        assert(after_rounds(rounds).1 =~= rounds.filter(found).map_values(event));
    }
}

/// The service stops when the channel is closed, and at nothing else.
pub proof fn lemma_pump_stops_only_when_closed<P>(
    received: Option<SignalEvent<P>>,
    event: SignalEvent<P>,
    found: bool,
    succeeded: bool,
)
    ensures
        PumpStep::<P>::spec_received(received) is Stop <==> received is None,
        !(PumpStep::<P>::spec_resolved(event, found) is Stop),
        !(PumpStep::<P>::spec_emitted(succeeded) is Stop),
{
}

} // verus!
