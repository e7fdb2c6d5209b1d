//! What holds of the shared state whatever clients ask, and how requests relate to one another.

use vstd::prelude::*;

use crate::barrier::{accepted, refused, requested, Barrier, BarrierRequest, Zone};
use crate::crossing::tested;
use crate::error::CaptureError;
use crate::session::{CaptureSessionState, SessionModel};
use crate::state::StateModel;

verus! {

/// One thing that changes the shared state, by its arguments.
pub enum Request {
    UpdateZones(Seq<Zone>),
    CreateSession(Seq<char>, u32),
    SetBarriers(Seq<char>, u32, Seq<BarrierRequest>),
    Enable(Seq<char>),
    Disable(Seq<char>),
    Release(Seq<char>),
    Close(Seq<char>),
}

impl Request {
    /// The session that the request is about.
    pub open spec fn session(self) -> Option<Seq<char>> {
        match self {
            Request::UpdateZones(_) => None,
            Request::CreateSession(id, _) => Some(id),
            Request::SetBarriers(id, _, _) => Some(id),
            Request::Enable(id) => Some(id),
            Request::Disable(id) => Some(id),
            Request::Release(id) => Some(id),
            Request::Close(id) => Some(id),
        }
    }
}

impl<P, F, E> StateModel<P, F, E> {
    /// The active session, if any, is one of the sessions, and all their barriers lie along an axis
    /// and are no points.
    pub open spec fn sound(self) -> bool {
        &&& self.active_session matches Some(id) ==> self.sessions.contains_key(id)
        &&& forall|id: Seq<char>| #[trigger]
            self.sessions.contains_key(id) ==> self.sessions[id].barriers_along_axis()
    }

    /// No session holds a set of zones that is still to come, and the barriers of each session that
    /// holds the current set lie on edges of the current zones.
    pub open spec fn on_edges(self) -> bool {
        forall|id: Seq<char>| #[trigger]
            self.sessions.contains_key(id) ==> {
                &&& self.sessions[id].zone_set <= self.zone_set
                &&& self.sessions[id].zone_set == self.zone_set ==> forall|i: int|
                    0 <= i < self.sessions[id].barriers.len() ==> (
                    #[trigger] self.sessions[id].barriers[i]).placeable(self.zones)
            }
    }

    /// The state after a request; a refused one leaves it as it was.
    pub open spec fn after(self, request: Request) -> Self {
        let outcome = match request {
            Request::UpdateZones(zones) => Ok(self.update_zones(zones)),
            Request::CreateSession(id, capabilities) => Ok(self.create_session(id, capabilities)),
            Request::SetBarriers(id, zone_set, requests) => self.set_barriers(
                id,
                zone_set,
                requests,
            ),
            Request::Enable(id) => self.enable(id),
            Request::Disable(id) => self.disable(id),
            Request::Release(id) => self.release(id),
            Request::Close(id) => Ok(self.close(id)),
        };
        match outcome {
            Ok(after) => after,
            Err(_) => self,
        }
    }

    /// The state after a number of requests, the first one first.
    pub open spec fn after_all(self, requests: Seq<Request>) -> Self
        decreases requests.len(),
    {
        if requests.len() == 0 {
            self
        } else {
            self.after_all(requests.drop_last()).after(requests.last())
        }
    }
}

/// Some request is for `barrier`.
pub open spec fn asked_for(requests: Seq<BarrierRequest>, barrier: Barrier) -> bool {
    exists|i: int| 0 <= i < requests.len() && requested(#[trigger] requests[i]) == barrier
}

/// Some request under the identifier `id` cannot be placed.
pub open spec fn asked_in_vain(
    requests: Seq<BarrierRequest>,
    zones: Seq<Zone>,
    id: u32,
) -> bool {
    exists|i: int|
        {
            &&& 0 <= i < requests.len()
            &&& !requested(#[trigger] requests[i]).placeable(zones)
            &&& requests[i].0 == id
        }
}

/// Every accepted barrier is placeable.
pub proof fn lemma_accepted_placeable(requests: Seq<BarrierRequest>, zones: Seq<Zone>)
    ensures
        forall|i: int|
            0 <= i < accepted(requests, zones).len() ==> (#[trigger] accepted(requests, zones)[i]).placeable(zones),
{
    let all = requests.map_values(|request: BarrierRequest| requested(request));
    let placeable = |barrier: Barrier| barrier.placeable(zones);
    assert forall|i: int| 0 <= i < accepted(requests, zones).len() implies (#[trigger] accepted(
        requests,
        zones,
    )[i]).placeable(zones) by {
        all.lemma_filter_pred(placeable, i);
    }
}

/// Every request for a barrier is either accepted or refused, and none is both: there are as many
/// requests as barriers accepted and identifiers refused together; a request is found among those
/// accepted if it can be placed, and its identifier among those refused if it cannot; and what is
/// found there was asked for.
pub proof fn lemma_barriers_parted(requests: Seq<BarrierRequest>, zones: Seq<Zone>)
    ensures
        accepted(requests, zones).len() + refused(requests, zones).len() == requests.len(),
        forall|i: int|
            0 <= i < requests.len() && requested(#[trigger] requests[i]).placeable(zones)
                ==> accepted(requests, zones).contains(requested(requests[i])),
        forall|i: int|
            0 <= i < requests.len() && !requested(#[trigger] requests[i]).placeable(zones)
                ==> refused(requests, zones).contains(requests[i].0),
        forall|i: int|
            0 <= i < accepted(requests, zones).len() ==> asked_for(
                requests,
                #[trigger] accepted(requests, zones)[i],
            ),
        forall|i: int|
            0 <= i < refused(requests, zones).len() ==> asked_in_vain(
                requests,
                zones,
                #[trigger] refused(requests, zones)[i],
            ),
{
    let all = requests.map_values(|request: BarrierRequest| requested(request));
    let yes = |barrier: Barrier| barrier.placeable(zones);
    let no = |barrier: Barrier| !barrier.placeable(zones);
    lemma_parted_len(all, zones);
    assert forall|i: int|
        0 <= i < requests.len() && requested(
            #[trigger] requests[i],
        ).placeable(zones) implies accepted(requests, zones).contains(requested(requests[i])) by {
        all.lemma_filter_contains(yes, i);
    }
    assert forall|i: int|
        0 <= i < requests.len() && !requested(
            #[trigger] requests[i],
        ).placeable(zones) implies refused(requests, zones).contains(requests[i].0) by {
        all.lemma_filter_contains(no, i);
        let k = all.filter(no).index_of(all[i]);
        assert(refused(requests, zones)[k] == requests[i].0);
    }
    assert forall|i: int| 0 <= i < accepted(requests, zones).len() implies asked_for(
        requests,
        #[trigger] accepted(requests, zones)[i],
    ) by {
        all.lemma_filter_contains_rev(yes, accepted(requests, zones)[i]);
        let j = all.index_of(accepted(requests, zones)[i]);
        assert(requested(requests[j]) == accepted(requests, zones)[i]);
    }
    assert forall|i: int| 0 <= i < refused(requests, zones).len() implies asked_in_vain(
        requests,
        zones,
        #[trigger] refused(requests, zones)[i],
    ) by {
        let barrier = all.filter(no)[i];
        all.lemma_filter_pred(no, i);
        all.lemma_filter_contains_rev(no, barrier);
        let j = all.index_of(barrier);
        assert(requested(requests[j]) == barrier);
    }
}

/// A sequence is as long as its placeable and its other barriers together.
proof fn lemma_parted_len(barriers: Seq<Barrier>, zones: Seq<Zone>)
    ensures
        barriers.filter(|barrier: Barrier| barrier.placeable(zones)).len() + barriers.filter(
            |barrier: Barrier| !barrier.placeable(zones),
        ).len() == barriers.len(),
    decreases barriers.len(),
{
    reveal(Seq::filter);
    if barriers.len() > 0 {
        lemma_parted_len(barriers.drop_last(), zones);
    }
}

/// No request makes a sound state unsound.
pub proof fn lemma_request_keeps_sound<P, F, E>(state: StateModel<P, F, E>, request: Request)
    requires
        state.sound(),
    ensures
        state.after(request).sound(),
{
    if let Request::SetBarriers(id, zone_set, requests) = request {
        lemma_accepted_placeable(requests, state.zones);
    }
}

/// No number of requests makes a sound state unsound.
pub proof fn lemma_requests_keep_sound<P, F, E>(state: StateModel<P, F, E>, since: Seq<Request>)
    requires
        state.sound(),
    ensures
        state.after_all(since).sound(),
    decreases since.len(),
{
    if since.len() > 0 {
        lemma_requests_keep_sound(state, since.drop_last());
        lemma_request_keeps_sound(state.after_all(since.drop_last()), since.last());
    }
}

/// Whatever was requested since the start, the state is sound, and no session is active or has been
/// activated by a request.
pub proof fn lemma_reachable_sound<P, F, E>(requests: Seq<Request>)
    ensures
        StateModel::<P, F, E>::empty(1).after_all(requests).sound(),
        StateModel::<P, F, E>::empty(1).after_all(requests).active_session is None,
        forall|id: Seq<char>| #[trigger]
            StateModel::<P, F, E>::empty(1).after_all(requests).sessions.contains_key(id)
                ==> StateModel::<P, F, E>::empty(1).after_all(requests).sessions[id].state
                != CaptureSessionState::Activated,
    decreases requests.len(),
{
    lemma_requests_keep_sound(StateModel::<P, F, E>::empty(1), requests);
    if requests.len() > 0 {
        lemma_reachable_sound::<P, F, E>(requests.drop_last());
    }
}

/// A request changes no session but the one that it is about, and nothing but the zones changes
/// where it is about none. The next activation and the channel stay as they are in any case.
pub proof fn lemma_request_is_local<P, F, E>(
    state: StateModel<P, F, E>,
    request: Request,
    other: Seq<char>,
)
    requires
        request.session() != Some(other),
    ensures
        state.after(request).sessions.contains_key(other) == state.sessions.contains_key(other),
        state.sessions.contains_key(other) ==> state.after(request).sessions[other]
            == state.sessions[other],
        request.session() is None ==> state.after(request) == (StateModel {
            zones: state.after(request).zones,
            zone_set: state.after(request).zone_set,
            ..state
        }),
        !(request.session() is None) ==> state.after(request).zones == state.zones,
        !(request.session() is None) ==> state.after(request).zone_set == state.zone_set,
        state.after(request).next_activation_id == state.next_activation_id,
        state.after(request).signal_tx == state.signal_tx,
{
}

/// Requests about other sessions leave a session as it is, however many there are.
pub proof fn lemma_requests_are_local<P, F, E>(
    state: StateModel<P, F, E>,
    since: Seq<Request>,
    other: Seq<char>,
)
    requires
        forall|i: int| 0 <= i < since.len() ==> (#[trigger] since[i]).session() != Some(other),
    ensures
        state.after_all(since).sessions.contains_key(other) == state.sessions.contains_key(other),
        state.sessions.contains_key(other) ==> state.after_all(since).sessions[other]
            == state.sessions[other],
    decreases since.len(),
{
    if since.len() > 0 {
        lemma_requests_are_local(state, since.drop_last(), other);
        assert(since.last() == since[since.len() - 1]);
        lemma_request_is_local(state.after_all(since.drop_last()), since.last(), other);
    }
}

/// Only giving the input back and closing end an activation, and only that of their own session. A
/// session that gives the input back has to be there.
pub proof fn lemma_activation_ends<P, F, E>(state: StateModel<P, F, E>, request: Request)
    requires
        request matches Request::Release(id) ==> state.active_session == Some(id)
            ==> state.sessions.contains_key(id),
    ensures
        state.after(request).active_session == match request {
            Request::Release(id) | Request::Close(id) => if state.active_session == Some(id) {
                None
            } else {
                state.active_session
            },
            _ => state.active_session,
        },
{
}

/// Enabling, disabling and giving back change nothing of the session but its state: its barriers
/// and all else stay.
pub proof fn lemma_session_kept<P, F, E>(state: StateModel<P, F, E>, id: Seq<char>)
    requires
        state.sessions.contains_key(id),
    ensures
        ({
            let session = state.sessions[id];
            let disabled = SessionModel { state: CaptureSessionState::Disabled, ..session };
            let enabled = SessionModel { state: CaptureSessionState::Enabled, ..session };
            &&& state.after(Request::Disable(id)).sessions[id] == disabled
            &&& state.after(Request::Release(id)).sessions[id] == disabled
            &&& state.after(Request::Enable(id)).sessions[id] == if session.state.may_enable() {
                enabled
            } else {
                session
            }
        }),
{
}

/// A session that was created, disabled or given back can be enabled, whatever was requested since,
/// as long as it was neither enabled nor closed.
pub proof fn lemma_idle_can_be_enabled<P, F, E>(
    state: StateModel<P, F, E>,
    request: Request,
    since: Seq<Request>,
    id: Seq<char>,
)
    requires
        request is CreateSession || request is Disable || request is Release,
        request.session() == Some(id),
        request is CreateSession || state.sessions.contains_key(id),
        forall|i: int|
            0 <= i < since.len() ==> #[trigger] since[i] != Request::Enable(id) && since[i]
                != Request::Close(id),
    ensures
        state.after(request).after_all(since).enable(id) is Ok,
{
    lemma_stays_enableable(state.after(request), since, id);
}

/// A session that can be enabled still can be after requests that neither enable nor close it.
proof fn lemma_stays_enableable<P, F, E>(
    state: StateModel<P, F, E>,
    since: Seq<Request>,
    id: Seq<char>,
)
    requires
        state.enable(id) is Ok,
        forall|i: int|
            0 <= i < since.len() ==> #[trigger] since[i] != Request::Enable(id) && since[i]
                != Request::Close(id),
    ensures
        state.after_all(since).enable(id) is Ok,
    decreases since.len(),
{
    if since.len() > 0 {
        lemma_stays_enableable(state, since.drop_last(), id);
        assert(since.last() == since[since.len() - 1]);
    }
}

/// Enabling a disabled session and disabling it again brings back the state from before.
pub proof fn lemma_disable_undoes_enable<P, F, E>(state: StateModel<P, F, E>, id: Seq<char>)
    requires
        state.sessions.contains_key(id),
        state.sessions[id].state == CaptureSessionState::Disabled,
    ensures
        state.after(Request::Enable(id)).after(Request::Disable(id)) == state,
{
    assert(state.after(Request::Enable(id)).after(Request::Disable(id)) =~= state);
}

/// Disabling, giving back and closing twice is the same as once.
pub proof fn lemma_repeats_change_nothing<P, F, E>(state: StateModel<P, F, E>, id: Seq<char>)
    ensures
        state.after(Request::Disable(id)).after(Request::Disable(id)) == state.after(
            Request::Disable(id),
        ),
        state.after(Request::Release(id)).after(Request::Release(id)) == state.after(
            Request::Release(id),
        ),
        state.after(Request::Close(id)).after(Request::Close(id)) == state.after(
            Request::Close(id),
        ),
{
    let disabled = state.after(Request::Disable(id));
    assert(disabled.after(Request::Disable(id)) =~= disabled);
    let released = state.after(Request::Release(id));
    assert(released.after(Request::Release(id)) =~= released);
    let closed = state.after(Request::Close(id));
    assert(closed.after(Request::Close(id)) =~= closed);
}

/// Closing a session that was just created under a new identifier brings back the state from
/// before, unless that identifier was held to be active.
pub proof fn lemma_close_undoes_create<P, F, E>(
    state: StateModel<P, F, E>,
    id: Seq<char>,
    capabilities: u32,
)
    requires
        state.active_session != Some(id),
        !state.sessions.contains_key(id),
    ensures
        state.create_session(id, capabilities).close(id) == state,
{
    assert(state.create_session(id, capabilities).close(id) =~= state);
}

/// A closed session is not found by any request that needs one, whatever was requested since, as
/// long as no session was created under its identifier, and it is not active. For barriers that
/// holds where they are drawn up for the current set of zones.
pub proof fn lemma_closed_is_not_found<P, F, E>(
    state: StateModel<P, F, E>,
    since: Seq<Request>,
    id: Seq<char>,
    requests: Seq<BarrierRequest>,
)
    requires
        forall|i: int|
            0 <= i < since.len() && (#[trigger] since[i]) is CreateSession ==> since[i].session()
                != Some(id),
    ensures
        ({
            let later = state.close(id).after_all(since);
            let not_found = Err::<StateModel<P, F, E>, _>(CaptureError::SessionNotFound);
            &&& !later.sessions.contains_key(id)
            &&& later.active_session != Some(id)
            &&& later.enable(id) == not_found
            &&& later.disable(id) == not_found
            &&& later.release(id) == not_found
            &&& later.set_barriers(id, later.zone_set, requests) == not_found
        }),
    decreases since.len(),
{
    if since.len() > 0 {
        lemma_closed_is_not_found(state, since.drop_last(), id, requests);
        assert(since.last() == since[since.len() - 1]);
    }
}

/// How many of the requests update the zones.
pub open spec fn updates(requests: Seq<Request>) -> nat {
    requests.filter(|request: Request| request is UpdateZones).len()
}

/// The number of the set of zones grows with each update of the zones and changes at nothing else.
pub proof fn lemma_zone_set_grows<P, F, E>(state: StateModel<P, F, E>, request: Request)
    requires
        request is UpdateZones ==> state.zone_set < u32::MAX,
    ensures
        state.after(request).zone_set == if request is UpdateZones {
            state.zone_set + 1
        } else {
            state.zone_set as int
        },
{
}

/// The number of the set of zones counts the updates of the zones.
pub proof fn lemma_zone_set_counts<P, F, E>(state: StateModel<P, F, E>, since: Seq<Request>)
    requires
        state.zone_set + updates(since) <= u32::MAX,
    ensures
        state.after_all(since).zone_set == state.zone_set + updates(since),
    decreases since.len(),
{
    reveal(Seq::filter);
    if since.len() > 0 {
        lemma_zone_set_counts(state, since.drop_last());
        lemma_zone_set_grows(state.after_all(since.drop_last()), since.last());
    }
}

/// Whatever was requested since the start, the barriers of each session that holds the current set
/// of zones lie on edges of the current zones.
pub proof fn lemma_reachable_on_edges<P, F, E>(requests: Seq<Request>)
    requires
        1 + updates(requests) <= u32::MAX,
    ensures
        StateModel::<P, F, E>::empty(1).after_all(requests).on_edges(),
{
    lemma_requests_keep_on_edges(StateModel::<P, F, E>::empty(1), requests);
}

/// Requests keep the barriers of each session that holds the current set of zones on edges of the
/// current zones.
pub proof fn lemma_requests_keep_on_edges<P, F, E>(state: StateModel<P, F, E>, since: Seq<Request>)
    requires
        state.on_edges(),
        state.zone_set + updates(since) <= u32::MAX,
    ensures
        state.after_all(since).on_edges(),
    decreases since.len(),
{
    reveal(Seq::filter);
    if since.len() > 0 {
        let before = state.after_all(since.drop_last());
        lemma_requests_keep_on_edges(state, since.drop_last());
        lemma_zone_set_counts(state, since.drop_last());
        lemma_zone_set_grows(before, since.last());
        if let Request::SetBarriers(id, zone_set, requests) = since.last() {
            lemma_accepted_placeable(requests, before.zones);
        }
    }
}

/// Barriers that were drawn up for the zones from before an update are refused, whatever else was
/// requested since.
pub proof fn lemma_outdated_barriers_refused<P, F, E>(
    state: StateModel<P, F, E>,
    since: Seq<Request>,
    id: Seq<char>,
    requests: Seq<BarrierRequest>,
)
    requires
        1 <= updates(since),
        state.zone_set + updates(since) <= u32::MAX,
    ensures
        state.after_all(since).set_barriers(id, state.zone_set, requests) == Err::<
            StateModel<P, F, E>,
            _,
        >(CaptureError::ZoneSetMismatch),
{
    lemma_zone_set_counts(state, since);
}

/// Barriers that are drawn up for the current zones are set in every session there is, in place of
/// those it had, and the session then holds the current set of zones. Every barrier set lies on an
/// edge of one of these zones. The barriers stay in the session until others are set in it, it is
/// closed, or a session is created under its identifier.
pub proof fn lemma_current_barriers_set<P, F, E>(
    state: StateModel<P, F, E>,
    id: Seq<char>,
    requests: Seq<BarrierRequest>,
    since: Seq<Request>,
)
    requires
        state.sessions.contains_key(id),
        forall|i: int|
            0 <= i < since.len() && (#[trigger] since[i]).session() == Some(id) ==> since[i] is Enable
                || since[i] is Disable || since[i] is Release,
    ensures
        state.set_barriers(id, state.zone_set, requests) matches Ok(after) && {
            &&& after.zones == state.zones
            &&& after.sessions[id].zone_set == after.zone_set
            &&& forall|i: int|
                0 <= i < after.sessions[id].barriers.len() ==> (
                #[trigger] after.sessions[id].barriers[i]).placeable(after.zones)
            &&& after.after_all(since).sessions.contains_key(id)
            &&& after.after_all(since).sessions[id].barriers == accepted(requests, state.zones)
        },
{
    let after = state.after(Request::SetBarriers(id, state.zone_set, requests));
    lemma_accepted_placeable(requests, state.zones);
    lemma_barriers_stay(after, since, id);
}

/// Enabling, disabling and giving back leave the barriers of a session, however often.
proof fn lemma_barriers_stay<P, F, E>(
    state: StateModel<P, F, E>,
    since: Seq<Request>,
    id: Seq<char>,
)
    requires
        state.sessions.contains_key(id),
        forall|i: int|
            0 <= i < since.len() && (#[trigger] since[i]).session() == Some(id) ==> since[i] is Enable
                || since[i] is Disable || since[i] is Release,
    ensures
        state.after_all(since).sessions.contains_key(id),
        state.after_all(since).sessions[id].barriers == state.sessions[id].barriers,
    decreases since.len(),
{
    if since.len() > 0 {
        lemma_barriers_stay(state, since.drop_last(), id);
        assert(since.last() == since[since.len() - 1]);
    }
}

/// A movement of the cursor is never taken to cross a barrier of a session that was created,
/// disabled, given back or closed, whatever was requested since, as long as it was not enabled.
pub proof fn lemma_idle_sessions_not_crossed<
    P,
    F,
    E,
    C: Fn(&P, &P, (i32, i32), (i32, i32)) -> Option<P>,
>(
    state: StateModel<P, F, E>,
    request: Request,
    since: Seq<Request>,
    id: Seq<char>,
    intersect: C,
    from: P,
    to: P,
    barrier_id: u32,
    point: P,
)
    requires
        request is CreateSession || request is Disable || request is Release || request is Close,
        request.session() == Some(id),
        forall|i: int| 0 <= i < since.len() ==> #[trigger] since[i] != Request::Enable(id),
    ensures
        !state.after(request).after_all(since).crossing(
            intersect,
            from,
            to,
            Some((barrier_id, id, point)),
        ),
{
    lemma_stays_idle(state.after(request), since, id);
}

/// A session that does not watch its barriers begins to only when it is enabled.
proof fn lemma_stays_idle<P, F, E>(state: StateModel<P, F, E>, since: Seq<Request>, id: Seq<char>)
    requires
        !state.watching(id),
        forall|i: int| 0 <= i < since.len() ==> #[trigger] since[i] != Request::Enable(id),
    ensures
        !state.after_all(since).watching(id),
    decreases since.len(),
{
    if since.len() > 0 {
        lemma_stays_idle(state, since.drop_last(), id);
        assert(since.last() == since[since.len() - 1]);
    }
}

/// A movement is taken to cross barriers of enabled sessions only, and a session has to have
/// barriers for it.
pub proof fn lemma_crossing_needs_enabled<
    P,
    F,
    E,
    C: Fn(&P, &P, (i32, i32), (i32, i32)) -> Option<P>,
>(
    state: StateModel<P, F, E>,
    id: Seq<char>,
    intersect: C,
    from: P,
    to: P,
    barrier_id: u32,
    point: P,
)
    requires
        state.crossing(intersect, from, to, Some((barrier_id, id, point))),
    ensures
        state.sessions.contains_key(id),
        state.sessions[id].state == CaptureSessionState::Enabled,
        exists|i: int|
            0 <= i < state.sessions[id].barriers.len() && (
            #[trigger] state.sessions[id].barriers[i]).id == barrier_id,
{
}

/// A session that was enabled has the barriers from before. It watches its barriers, and cannot be
/// enabled again, which the refusal tells by its state, until it is disabled, given back or closed,
/// or a session is created under its identifier.
pub proof fn lemma_enabled_watches<P, F, E>(
    state: StateModel<P, F, E>,
    since: Seq<Request>,
    id: Seq<char>,
)
    requires
        state.enable(id) is Ok,
        forall|i: int|
            0 <= i < since.len() && (#[trigger] since[i]).session() == Some(id) ==> since[i] is Enable
                || since[i] is SetBarriers,
    ensures
        ({
            let enabled = state.after(Request::Enable(id));
            let later = enabled.after_all(since);
            &&& enabled.sessions[id].barriers == state.sessions[id].barriers
            &&& later.watching(id)
            &&& later.enable(id) == Err::<StateModel<P, F, E>, _>(
                CaptureError::InvalidStateForEnable(CaptureSessionState::Enabled),
            )
        }),
    decreases since.len(),
{
    if since.len() > 0 {
        lemma_enabled_watches(state, since.drop_last(), id);
        assert(since.last() == since[since.len() - 1]);
    }
}

/// A movement that meets some barrier of a watching session never goes unnoticed.
pub proof fn lemma_met_barrier_noticed<
    P,
    F,
    E,
    C: Fn(&P, &P, (i32, i32), (i32, i32)) -> Option<P>,
>(
    state: StateModel<P, F, E>,
    id: Seq<char>,
    i: int,
    intersect: C,
    from: P,
    to: P,
    found: Option<(u32, Seq<char>, P)>,
)
    requires
        state.watching(id),
        0 <= i < state.sessions[id].barriers.len(),
        !tested(intersect, from, to, state.sessions[id].barriers[i], None),
        state.crossing(intersect, from, to, found),
    ensures
        found is Some,
{
}

} // verus!
