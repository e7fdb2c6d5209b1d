//! The state that the service and the compositor share, and what each request does to it.

use std::sync::mpsc::Sender;

use vstd::prelude::*;

use crate::barrier::{accepted, refused, reported, sort_barriers, BarrierRequest, Zone, ZoneReport};
use crate::error::CaptureError;
use crate::event::{EventModel, InputCaptureEvent, SignalEvent};
use crate::ident::{clock_reading, session_id, session_id_text, unique_part, uuid_simple};
use crate::session::{CaptureSession, CaptureSessionState, SessionModel};
use crate::table::SessionTable;

verus! {

/// Shared state between D-Bus thread and compositor
///
/// `P` is the type of a cursor position, `F` that of a file descriptor and `E` that of a connection
/// to an emulated-input client.
#[verifier::reject_recursive_types(P)]
pub struct InputCaptureState<P, F, E> {
    pub sessions: SessionTable<CaptureSession<F, E>>,
    /// Currently active capture session (if any)
    pub active_session: Option<String>,
    /// Monotonically increasing zone_set counter
    pub zone_set: u32,
    /// Current output zones
    pub zones: Vec<Zone>,
    /// Next activation ID
    pub next_activation_id: u32,
    /// Channel sender for D-Bus signal emission (compositor -> D-Bus thread)
    pub signal_tx: Option<Sender<SignalEvent<P>>>,
}

/// What the shared state holds.
#[verifier::ext_equal]
#[verifier::reject_recursive_types(P)]
pub struct StateModel<P, F, E> {
    pub sessions: Map<Seq<char>, SessionModel<F, E>>,
    pub active_session: Option<Seq<char>>,
    pub zone_set: u32,
    pub zones: Seq<Zone>,
    pub next_activation_id: u32,
    pub signal_tx: Option<Sender<SignalEvent<P>>>,
}

impl<P, F, E> View for InputCaptureState<P, F, E> {
    type V = StateModel<P, F, E>;

    open spec fn view(&self) -> StateModel<P, F, E> {
        StateModel {
            sessions: self.sessions@.map_values(|session: CaptureSession<F, E>| session@),
            active_session: match self.active_session {
                Some(id) => Some(id@),
                None => None,
            },
            zone_set: self.zone_set,
            zones: self.zones@,
            next_activation_id: self.next_activation_id,
            signal_tx: self.signal_tx,
        }
    }
}

impl<P, F, E> StateModel<P, F, E> {
    /// No sessions, no zones and no channel.
    pub open spec fn empty(zone_set: u32) -> Self {
        StateModel {
            sessions: Map::empty(),
            active_session: None,
            zone_set,
            zones: Seq::empty(),
            next_activation_id: 0,
            signal_tx: None,
        }
    }

    /// With other zones, which make a new set.
    pub open spec fn update_zones(self, zones: Seq<Zone>) -> Self {
        StateModel { zones, zone_set: (self.zone_set + 1) as u32, ..self }
    }

    /// With `session` stored under `id`.
    pub open spec fn with_session(self, id: Seq<char>, session: SessionModel<F, E>) -> Self {
        StateModel { sessions: self.sessions.insert(id, session), ..self }
    }

    /// With the session `id` in the state `state`.
    pub open spec fn with_session_state(self, id: Seq<char>, state: CaptureSessionState) -> Self {
        self.with_session(id, SessionModel { state, ..self.sessions[id] })
    }

    /// With `id` no longer the active session.
    pub open spec fn deactivated(self, id: Seq<char>) -> Self {
        if self.active_session == Some(id) {
            StateModel { active_session: None, ..self }
        } else {
            self
        }
    }

    /// A new session under `id`.
    pub open spec fn create_session(self, id: Seq<char>, capabilities: u32) -> Self {
        self.with_session(id, SessionModel::fresh(capabilities, self.zone_set))
    }

    /// The placeable barriers among `requests` become the barriers of the session `id`, provided
    /// that they were drawn up for the current set of zones.
    pub open spec fn set_barriers(
        self,
        id: Seq<char>,
        zone_set: u32,
        requests: Seq<BarrierRequest>,
    ) -> Result<Self, CaptureError> {
        if self.zone_set != zone_set {
            Err(CaptureError::ZoneSetMismatch)
        } else if !self.sessions.contains_key(id) {
            Err(CaptureError::SessionNotFound)
        } else {
            Ok(
                self.with_session(
                    id,
                    SessionModel { barriers: accepted(requests, self.zones), zone_set, ..self.sessions[id] },
                ),
            )
        }
    }

    /// The session `id` begins to watch its barriers.
    pub open spec fn enable(self, id: Seq<char>) -> Result<Self, CaptureError> {
        if !self.sessions.contains_key(id) {
            Err(CaptureError::SessionNotFound)
        } else if !self.sessions[id].state.may_enable() {
            Err(CaptureError::InvalidStateForEnable(self.sessions[id].state))
        } else {
            Ok(self.with_session_state(id, CaptureSessionState::Enabled))
        }
    }

    /// The session `id` ceases to watch its barriers.
    pub open spec fn disable(self, id: Seq<char>) -> Result<Self, CaptureError> {
        if !self.sessions.contains_key(id) {
            Err(CaptureError::SessionNotFound)
        } else {
            Ok(self.with_session_state(id, CaptureSessionState::Disabled))
        }
    }

    /// The session `id` gives the captured input back.
    pub open spec fn release(self, id: Seq<char>) -> Result<Self, CaptureError> {
        match self.disable(id) {
            Ok(disabled) => Ok(disabled.deactivated(id)),
            Err(error) => Err(error),
        }
    }

    /// The session `id`, if there is one, is gone.
    pub open spec fn close(self, id: Seq<char>) -> Self {
        StateModel { sessions: self.sessions.remove(id), ..self }.deactivated(id)
    }
}

impl<P, F, E> Default for InputCaptureState<P, F, E> {
    fn default() -> (state: Self)
        ensures
            state@ == StateModel::<P, F, E>::empty(0),
    {
        let state = InputCaptureState {
            sessions: SessionTable::new(),
            active_session: None,
            zone_set: 0,
            zones: Vec::new(),
            next_activation_id: 0,
            signal_tx: None,
        };
        assert(state@ =~= StateModel::<P, F, E>::empty(0));
        state
    }
}

impl<P, F, E> InputCaptureState<P, F, E> {
    /// The state at the start: the first set of zones has the number 1.
    pub fn new() -> (state: Self)
        ensures
            state@ == StateModel::<P, F, E>::empty(1),
    {
        let mut state: Self = Default::default();
        state.zone_set = 1;
        state
    }

    /// Update zones from output layout
    pub fn update_zones(&mut self, zones: Vec<Zone>)
        requires
            old(self).zone_set < u32::MAX,
        ensures
            final(self)@ == old(self)@.update_zones(zones@),
            final(self).zones@ == zones@,
            final(self).zone_set == old(self).zone_set + 1,
    {
        self.zones = zones;
        self.zone_set = self.zone_set + 1;
    }

    /// Makes a session whose identifier has the unique part `unique`.
    ///
    /// The reply is the session's identifier, and the message for the compositor.
    pub fn create_session_as(&mut self, unique: &str, capabilities: u32) -> (reply: (
        String,
        InputCaptureEvent<P, F>,
    ))
        ensures
            reply.0@ == session_id(unique@),
            reply.0@ == "input_capture_"@ + unique@,
            reply.1@ == (EventModel::<P, F>::SessionCreated { session_id: reply.0@, capabilities }),
            final(self)@ == old(self)@.create_session(reply.0@, capabilities),
    {
        let id = session_id_text(unique);
        let current_zone_set: u32 = self.zone_set;
        self.sessions.insert(id.clone(), CaptureSession::fresh(capabilities, current_zone_set));
        assert(self@ =~= old(self)@.create_session(id@, capabilities));
        (id.clone(), InputCaptureEvent::SessionCreated { session_id: id, capabilities })
    }

    /// Makes a session whose identifier comes from the clock.
    ///
    /// The reply is the session's identifier, and the message for the compositor.
    pub fn create_session(&mut self, capabilities: u32) -> (reply: (
        String,
        InputCaptureEvent<P, F>,
    ))
        ensures
            exists|reading: Option<u128>|
                {
                    &&& #[trigger] clock_reading(reading)
                    &&& reply.0@ == session_id(unique_part(reading))
                },
            reply.1@ == (EventModel::<P, F>::SessionCreated { session_id: reply.0@, capabilities }),
            final(self)@ == old(self)@.create_session(reply.0@, capabilities),
    {
        let unique = uuid_simple();
        self.create_session_as(unique.as_str(), capabilities)
    }

    /// The current zones and the number of their set, which are the same for every session.
    pub fn get_zones(&self, _session_id: &str) -> (reply: (u32, Vec<ZoneReport>))
        ensures
            reply.0 == self@.zone_set,
            reply.1@ == self@.zones.map_values(|zone: Zone| reported(zone)),
            reply.0 == self.zone_set,
            reply.1@.len() == self.zones@.len(),
            forall|i: int|
                0 <= i < self.zones@.len() ==> {
                    &&& (#[trigger] reply.1@[i]).0 == self.zones@[i].width
                    &&& reply.1@[i].1 == self.zones@[i].height
                    &&& reply.1@[i].2 == self.zones@[i].x
                    &&& reply.1@[i].3 == self.zones@[i].y
                },
    {
        let mut reports: Vec<ZoneReport> = Vec::new();
        let mut i: usize = 0;
        while i < self.zones.len()
            invariant
                i <= self.zones@.len(),
                reports@ == self.zones@.take(i as int).map_values(|zone: Zone| reported(zone)),
            decreases self.zones@.len() - i,
        {
            let zone = self.zones[i];
            reports.push((zone.width, zone.height, zone.x, zone.y));
            i = i + 1;
            assert(reports@ =~= self.zones@.take(i as int).map_values(
                |zone: Zone| reported(zone),
            ));
        }
        assert(self.zones@.take(i as int) =~= self.zones@);
        (self.zone_set, reports)
    }

    /// Gives a session the placeable ones among the requested barriers, in place of those it had: the
    /// segments along an axis that lie on an edge of a current zone.
    ///
    /// The reply is the identifiers of the barriers that failed, and the message for the compositor.
    pub fn set_barriers(
        &mut self,
        session_id: &str,
        zone_set: u32,
        barriers: Vec<BarrierRequest>,
    ) -> (reply: Result<(Vec<u32>, InputCaptureEvent<P, F>), CaptureError>)
        ensures
            match old(self)@.set_barriers(session_id@, zone_set, barriers@) {
                Ok(after) => {
                    &&& reply matches Ok((failed, event))
                    &&& failed@ == refused(barriers@, old(self)@.zones)
                    &&& event@ == (EventModel::<P, F>::BarriersSet {
                        session_id: session_id@,
                        barriers: accepted(barriers@, old(self)@.zones),
                        zone_set,
                    })
                    &&& final(self)@ == after
                },
                Err(error) => (reply matches Err(e) && e == error)
                    && final(self)@ == old(self)@,
            },
    {
        if self.zone_set != zone_set {
            return Err(CaptureError::ZoneSetMismatch);
        }
        let id = session_id.to_owned();
        match self.sessions.get_mut(&id) {
            None => {
                return Err(CaptureError::SessionNotFound);
            },
            Some(session) => {
                let (valid, failed) = sort_barriers(&barriers, &self.zones);
                session.barriers = valid.clone();
                session.zone_set = zone_set;
                assert(session.barriers@ =~= valid@);
                let event = InputCaptureEvent::BarriersSet {
                    session_id: id,
                    barriers: valid,
                    zone_set,
                };
                Ok((failed, event))
            },
        }
    }

    /// Lets a session watch its barriers.
    ///
    /// The reply is the message for the compositor.
    pub fn enable(&mut self, session_id: &str) -> (reply: Result<
        InputCaptureEvent<P, F>,
        CaptureError,
    >)
        ensures
            match old(self)@.enable(session_id@) {
                Ok(after) => {
                    &&& reply matches Ok(event)
                    &&& event@ == (EventModel::<P, F>::Enabled { session_id: session_id@ })
                    &&& final(self)@ == after
                },
                Err(error) => (reply matches Err(e) && e == error) && final(self)@ == old(self)@,
            },
    {
        let id = session_id.to_owned();
        match self.sessions.get_mut(&id) {
            None => Err(CaptureError::SessionNotFound),
            Some(session) => match session.state {
                CaptureSessionState::Created | CaptureSessionState::Disabled => {
                    session.state = CaptureSessionState::Enabled;
                    Ok(InputCaptureEvent::Enabled { session_id: id })
                },
                _ => Err(CaptureError::InvalidStateForEnable(session.state)),
            },
        }
    }

    /// Stops a session from watching its barriers.
    ///
    /// The reply is the message for the compositor.
    pub fn disable(&mut self, session_id: &str) -> (reply: Result<
        InputCaptureEvent<P, F>,
        CaptureError,
    >)
        ensures
            match old(self)@.disable(session_id@) {
                Ok(after) => {
                    &&& reply matches Ok(event)
                    &&& event@ == (EventModel::<P, F>::Disabled { session_id: session_id@ })
                    &&& final(self)@ == after
                },
                Err(error) => (reply matches Err(e) && e == error) && final(self)@ == old(self)@,
            },
    {
        let id = session_id.to_owned();
        match self.sessions.get_mut(&id) {
            None => Err(CaptureError::SessionNotFound),
            Some(session) => {
                session.state = CaptureSessionState::Disabled;
                Ok(InputCaptureEvent::Disabled { session_id: id })
            },
        }
    }

    /// Lets a session give the captured input back.
    ///
    /// The reply is the message for the compositor.
    pub fn release(&mut self, session_id: &str, activation_id: u32, cursor_position: P) -> (reply:
        Result<InputCaptureEvent<P, F>, CaptureError>)
        ensures
            match old(self)@.release(session_id@) {
                Ok(after) => {
                    &&& reply matches Ok(event)
                    &&& event@ == (EventModel::<P, F>::Released {
                        session_id: session_id@,
                        activation_id,
                        cursor_position: Some(cursor_position),
                    })
                    &&& final(self)@ == after
                },
                Err(error) => (reply matches Err(e) && e == error) && final(self)@ == old(self)@,
            },
    {
        let id = session_id.to_owned();
        match self.sessions.get_mut(&id) {
            None => {
                return Err(CaptureError::SessionNotFound);
            },
            Some(session) => {
                session.state = CaptureSessionState::Disabled;
            },
        }
        self.deactivate(&id);
        Ok(
            InputCaptureEvent::Released {
                session_id: id,
                activation_id,
                cursor_position: Some(cursor_position),
            },
        )
    }

    /// Forgets a session, whether or not there is one.
    ///
    /// The reply is the message for the compositor.
    pub fn close(&mut self, session_id: &str) -> (event: InputCaptureEvent<P, F>)
        ensures
            event@ == (EventModel::<P, F>::SessionClosed { session_id: session_id@ }),
            final(self)@ == old(self)@.close(session_id@),
    {
        let id = session_id.to_owned();
        self.sessions.remove(&id);
        self.deactivate(&id);
        assert(self@ =~= old(self)@.close(session_id@));
        InputCaptureEvent::SessionClosed { session_id: id }
    }

    /// Forgets that `id` is the active session, if it is.
    fn deactivate(&mut self, id: &String)
        ensures
            final(self)@ == old(self)@.deactivated(id@),
    {
        let active: bool = match &self.active_session {
            Some(active_id) => *active_id == *id,
            None => false,
        };
        if active {
            self.active_session = None;
        }
    }
}

/// Hands one end of a pair of sockets, if it could be made, to the compositor.
///
/// The pair holds the client's end and then the server's. The reply is the client's end, and the
/// message for the compositor.
pub fn connect_to_eis<P, F>(session_id: &str, pair: Result<(F, F), String>) -> (reply: Result<
    (F, InputCaptureEvent<P, F>),
    CaptureError,
>)
    ensures
        match pair {
            Ok((client, server)) => {
                &&& reply matches Ok((handed, event))
                &&& handed == client
                &&& event@ == (EventModel::<P, F>::ConnectEIS {
                    session_id: session_id@,
                    server_fd: server,
                })
            },
            Err(reason) => reply matches Err(e) && e == CaptureError::SocketPairFailed(reason),
        },
{
    match pair {
        Ok((client, server)) => Ok(
            (
                client,
                InputCaptureEvent::ConnectEIS {
                    session_id: session_id.to_owned(),
                    server_fd: server,
                },
            ),
        ),
        Err(reason) => Err(CaptureError::SocketPairFailed(reason)),
    }
}

} // verus!
