//! What the service tells the compositor, and what the compositor tells the service.
//!
//! `P` is the type of a cursor position and `F` that of a file descriptor; the events only carry
//! them.

use vstd::prelude::*;

use crate::barrier::Barrier;

verus! {

/// D-Bus signal events sent from compositor to the D-Bus service thread
#[derive(Debug)]
pub enum SignalEvent<P> {
    Activated { session_id: String, barrier_id: u32, activation_id: u32, cursor_position: P },
    Deactivated { session_id: String, activation_id: u32 },
    Disabled { session_id: String },
    ZonesChanged { zone_set: u32 },
}

/// Messages from the D-Bus interface to the compositor event loop
#[derive(Debug)]
pub enum InputCaptureEvent<P, F> {
    SessionCreated { session_id: String, capabilities: u32 },
    SessionClosed { session_id: String },
    BarriersSet { session_id: String, barriers: Vec<Barrier>, zone_set: u32 },
    Enabled { session_id: String },
    Disabled { session_id: String },
    Released { session_id: String, activation_id: u32, cursor_position: Option<P> },
    ConnectEIS { session_id: String, server_fd: F },
}

/// What a message to the compositor says.
#[verifier::ext_equal]
pub enum EventModel<P, F> {
    SessionCreated { session_id: Seq<char>, capabilities: u32 },
    SessionClosed { session_id: Seq<char> },
    BarriersSet { session_id: Seq<char>, barriers: Seq<Barrier>, zone_set: u32 },
    Enabled { session_id: Seq<char> },
    Disabled { session_id: Seq<char> },
    Released { session_id: Seq<char>, activation_id: u32, cursor_position: Option<P> },
    ConnectEIS { session_id: Seq<char>, server_fd: F },
}

impl<P, F> View for InputCaptureEvent<P, F> {
    type V = EventModel<P, F>;

    open spec fn view(&self) -> EventModel<P, F> {
        match *self {
            InputCaptureEvent::SessionCreated { session_id, capabilities } => {
                EventModel::SessionCreated { session_id: session_id@, capabilities }
            },
            InputCaptureEvent::SessionClosed { session_id } => {
                EventModel::SessionClosed { session_id: session_id@ }
            },
            InputCaptureEvent::BarriersSet { session_id, barriers, zone_set } => {
                EventModel::BarriersSet { session_id: session_id@, barriers: barriers@, zone_set }
            },
            InputCaptureEvent::Enabled { session_id } => {
                EventModel::Enabled { session_id: session_id@ }
            },
            InputCaptureEvent::Disabled { session_id } => {
                EventModel::Disabled { session_id: session_id@ }
            },
            InputCaptureEvent::Released { session_id, activation_id, cursor_position } => {
                EventModel::Released { session_id: session_id@, activation_id, cursor_position }
            },
            InputCaptureEvent::ConnectEIS { session_id, server_fd } => {
                EventModel::ConnectEIS { session_id: session_id@, server_fd }
            },
        }
    }
}

} // verus!
