//! The channel that carries signal events from the compositor to the service.

use std::sync::mpsc::Sender;

use vstd::prelude::*;

use crate::event::SignalEvent;

verus! {

/// `std::sync::mpsc::Sender`, the sending half of a channel. Nothing is known of a value of it.
#[verifier::external_type_specification]
#[verifier::external_body]
#[verifier::reject_recursive_types(T)]
pub struct ExSender<T>(std::sync::mpsc::Sender<T>);

/// Evidence that an event was handed over to a channel. Sending is the only way to come by it.
#[verifier::reject_recursive_types(P)]
pub struct Receipt<P> {
    sent: Ghost<(Sender<SignalEvent<P>>, SignalEvent<P>)>,
}

impl<P> Receipt<P> {
    /// The channel.
    pub closed spec fn channel(self) -> Sender<SignalEvent<P>> {
        self.sent@.0
    }

    /// The event.
    pub closed spec fn event(self) -> SignalEvent<P> {
        self.sent@.1
    }
}

/// Evidence that a channel would not take an event, with the event. Sending is the only way to come
/// by it.
#[verifier::reject_recursive_types(P)]
pub struct Refusal<P> {
    back: SignalEvent<P>,
    refused_by: Ghost<Sender<SignalEvent<P>>>,
}

impl<P> Refusal<P> {
    /// The channel.
    pub closed spec fn channel(self) -> Sender<SignalEvent<P>> {
        self.refused_by@
    }

    /// The event.
    pub closed spec fn event(self) -> SignalEvent<P> {
        self.back
    }

    /// Hands the event out.
    pub fn into_event(self) -> (event: SignalEvent<P>)
        ensures
            event == self.event(),
    {
        self.back
    }
}

/// Sends an event through `std::sync::mpsc::Sender::send`. Where that succeeds, the receipt is for
/// this channel and this event; where it does not, the refusal is by this channel and holds the
/// event as it was. Which of the two it is depends on the receiver, of which nothing is known here.
#[verifier::external_body]
pub(crate) fn send_event<P>(tx: &Sender<SignalEvent<P>>, event: SignalEvent<P>) -> (sent: Result<
    Receipt<P>,
    Refusal<P>,
>)
    ensures
        match sent {
            Ok(receipt) => receipt.channel() == *tx && receipt.event() == event,
            Err(refusal) => refusal.channel() == *tx && refusal.event() == event,
        },
{
    match tx.send(event) {
        Ok(()) => Ok(Receipt { sent: Ghost((*tx, event)) }),
        Err(error) => Err(Refusal { back: error.0, refused_by: Ghost(*tx) }),
    }
}

} // verus!
