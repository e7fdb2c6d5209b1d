//! What each operation brings about, told by the fields of what goes in and of what comes out.

use vstd::prelude::*;

use crate::barrier::{accepted, refused, reported, Barrier, BarrierRequest, Zone, ZoneReport};
use crate::crossing::can_test;
use crate::error::CaptureError;
use crate::event::{EventModel, InputCaptureEvent};
use crate::laws::{lemma_barriers_parted, Request};
use crate::session::{CaptureSession, CaptureSessionState};
use crate::state::{InputCaptureState, StateModel};

verus! {

/// A segment that is no point and lies on the left or right side of a zone, between its top and its
/// bottom, or on its top or bottom, between its sides, can be placed. The right side is as far from
/// the left one as the zone is wide, and the bottom as far from the top as the zone is high.
pub proof fn lemma_edges_are_placeable(barrier: Barrier, zones: Seq<Zone>, k: int)
    requires
        0 <= k < zones.len(),
        ({
            ||| {
                &&& barrier.x1 == barrier.x2 && barrier.y1 != barrier.y2
                &&& barrier.x1 - zones[k].x == 0 || barrier.x1 - zones[k].x == zones[k].width
                &&& 0 <= barrier.y1 - zones[k].y <= zones[k].height
                &&& 0 <= barrier.y2 - zones[k].y <= zones[k].height
            }
            ||| {
                &&& barrier.y1 == barrier.y2 && barrier.x1 != barrier.x2
                &&& barrier.y1 - zones[k].y == 0 || barrier.y1 - zones[k].y == zones[k].height
                &&& 0 <= barrier.x1 - zones[k].x <= zones[k].width
                &&& 0 <= barrier.x2 - zones[k].x <= zones[k].width
            }
        }),
    ensures
        barrier.placeable(zones),
{
    assert(barrier.on_edge(zones[k]));
}

/// Nothing else can be placed: a placeable segment is no point, and lies on a side, on the top or on
/// the bottom of some zone.
pub proof fn lemma_only_edges_are_placeable(barrier: Barrier, zones: Seq<Zone>) -> (k: int)
    requires
        barrier.placeable(zones),
    ensures
        0 <= k < zones.len(),
        ({
            ||| {
                &&& barrier.x1 == barrier.x2 && barrier.y1 != barrier.y2
                &&& barrier.x1 - zones[k].x == 0 || barrier.x1 - zones[k].x == zones[k].width
                &&& 0 <= barrier.y1 - zones[k].y <= zones[k].height
                &&& 0 <= barrier.y2 - zones[k].y <= zones[k].height
            }
            ||| {
                &&& barrier.y1 == barrier.y2 && barrier.x1 != barrier.x2
                &&& barrier.y1 - zones[k].y == 0 || barrier.y1 - zones[k].y == zones[k].height
                &&& 0 <= barrier.x1 - zones[k].x <= zones[k].width
                &&& 0 <= barrier.x2 - zones[k].x <= zones[k].width
            }
        }),
{
    choose|k: int| 0 <= k < zones.len() && barrier.on_edge(#[trigger] zones[k])
}

/// Where the outputs stand as a whole does not matter: a barrier that is moved along with all zones
/// can be placed after the move if and only if it could be before.
pub proof fn lemma_moving_everything_changes_nothing(
    barrier: Barrier,
    zones: Seq<Zone>,
    moved: Barrier,
    zones_moved: Seq<Zone>,
    dx: int,
    dy: int,
)
    requires
        moved.x1 == barrier.x1 + dx,
        moved.y1 == barrier.y1 + dy,
        moved.x2 == barrier.x2 + dx,
        moved.y2 == barrier.y2 + dy,
        zones_moved.len() == zones.len(),
        forall|k: int|
            #![trigger zones[k]]
            #![trigger zones_moved[k]]
            0 <= k < zones.len() ==> {
                &&& zones_moved[k].x == zones[k].x + dx
                &&& zones_moved[k].y == zones[k].y + dy
                &&& zones_moved[k].width == zones[k].width
                &&& zones_moved[k].height == zones[k].height
            },
    ensures
        moved.placeable(zones_moved) == barrier.placeable(zones),
{
    if barrier.placeable(zones) {
        let k = lemma_only_edges_are_placeable(barrier, zones);
        lemma_edges_are_placeable(moved, zones_moved, k);
    }
    if moved.placeable(zones_moved) {
        let k = lemma_only_edges_are_placeable(moved, zones_moved);
        lemma_edges_are_placeable(barrier, zones, k);
    }
}

/// Of no requests nothing is accepted and nothing refused. One more request at the end adds one
/// barrier, with its identifier and its ends as they were asked for, at the end of those accepted, or
/// else its identifier at the end of those refused; what came of the requests before it stays.
pub proof fn lemma_one_more_request(
    requests: Seq<BarrierRequest>,
    zones: Seq<Zone>,
    id: u32,
    x1: i32,
    y1: i32,
    x2: i32,
    y2: i32,
)
    ensures
        accepted(Seq::empty(), zones) == Seq::<Barrier>::empty(),
        refused(Seq::empty(), zones) == Seq::<u32>::empty(),
        (Barrier { id, x1, y1, x2, y2 }).placeable(zones) ==> {
            &&& accepted(requests.push((id, (x1, y1, x2, y2))), zones) == accepted(
                requests,
                zones,
            ).push(Barrier { id, x1, y1, x2, y2 })
            &&& refused(requests.push((id, (x1, y1, x2, y2))), zones) == refused(requests, zones)
        },
        !(Barrier { id, x1, y1, x2, y2 }).placeable(zones) ==> {
            &&& accepted(requests.push((id, (x1, y1, x2, y2))), zones) == accepted(requests, zones)
            &&& refused(requests.push((id, (x1, y1, x2, y2))), zones) == refused(
                requests,
                zones,
            ).push(id)
        },
{
    reveal(Seq::filter);
    assert(accepted(Seq::empty(), zones) =~= Seq::<Barrier>::empty());
    assert(refused(Seq::empty(), zones) =~= Seq::<u32>::empty());
    let request: BarrierRequest = (id, (x1, y1, x2, y2));
    let more = requests.push(request);
    assert(more.take(requests.len() as int) =~= requests);
    assert(more.take(requests.len() as int + 1) =~= more);
    crate::barrier::lemma_next_request(more, zones, requests.len() as int);
}

/// A request for a segment on an edge of a current zone gives the session that barrier, and its
/// identifier is not among those that fail, unless another request under it cannot be placed.
pub proof fn lemma_edge_barrier_is_set<P, F, E>(
    state: StateModel<P, F, E>,
    id: Seq<char>,
    requests: Seq<BarrierRequest>,
    i: int,
    k: int,
)
    requires
        state.sessions.contains_key(id),
        0 <= i < requests.len(),
        0 <= k < state.zones.len(),
        ({
            let (x1, y1, x2, y2) = requests[i].1;
            let zone = state.zones[k];
            ||| {
                &&& x1 == x2 && y1 != y2
                &&& x1 == zone.x || x1 == zone.x + zone.width
                &&& zone.y <= y1 <= zone.y + zone.height
                &&& zone.y <= y2 <= zone.y + zone.height
            }
            ||| {
                &&& y1 == y2 && x1 != x2
                &&& y1 == zone.y || y1 == zone.y + zone.height
                &&& zone.x <= x1 <= zone.x + zone.width
                &&& zone.x <= x2 <= zone.x + zone.width
            }
        }),
    ensures
        state.set_barriers(id, state.zone_set, requests) matches Ok(after)
            && after.sessions[id].barriers.contains(
            Barrier {
                id: requests[i].0,
                x1: requests[i].1.0,
                y1: requests[i].1.1,
                x2: requests[i].1.2,
                y2: requests[i].1.3,
            },
        ),
        (forall|j: int|
            0 <= j < requests.len() && j != i ==> (#[trigger] requests[j]).0 != requests[i].0)
            ==> !refused(requests, state.zones).contains(requests[i].0),
{
    let barrier = Barrier {
        id: requests[i].0,
        x1: requests[i].1.0,
        y1: requests[i].1.1,
        x2: requests[i].1.2,
        y2: requests[i].1.3,
    };
    lemma_edges_are_placeable(barrier, state.zones, k);
    lemma_barriers_parted(requests, state.zones);
    let failed = refused(requests, state.zones);
    if failed.contains(barrier.id) {
        let n = failed.index_of(barrier.id);
        assert(crate::laws::asked_in_vain(requests, state.zones, failed[n]));
    }
}

/// After an update the current zones are just those of the new layout, whatever they were before.
/// The sessions, the active one, the next activation and the channel stay.
pub proof fn lemma_layout_replaced<P, F, E>(state: StateModel<P, F, E>, zones: Seq<Zone>)
    ensures
        state.update_zones(zones).zones == zones,
        state.update_zones(zones).sessions == state.sessions,
        state.update_zones(zones).active_session == state.active_session,
        state.update_zones(zones).next_activation_id == state.next_activation_id,
        state.update_zones(zones).signal_tx == state.signal_tx,
        state.zone_set < u32::MAX ==> state.update_zones(zones).zone_set == state.zone_set + 1,
{
}

/// The last of two updates alone decides what is reported: as many zones as it has, each with its own
/// width, height and place, in their order.
pub proof fn lemma_last_layout_reported<P, F, E>(
    state: StateModel<P, F, E>,
    first: Seq<Zone>,
    last: Seq<Zone>,
)
    ensures
        ({
            let reports: Seq<ZoneReport> = state.after(Request::UpdateZones(first)).after(
                Request::UpdateZones(last),
            ).zones.map_values(|zone: Zone| reported(zone));
            &&& reports.len() == last.len()
            &&& forall|i: int|
                0 <= i < last.len() ==> {
                    &&& (#[trigger] reports[i]).0 == last[i].width
                    &&& reports[i].1 == last[i].height
                    &&& reports[i].2 == last[i].x
                    &&& reports[i].3 == last[i].y
                }
        }),
{
}

/// At the start there are no sessions, no zones, no activations and no channel.
pub proof fn lemma_start_is_bare<P, F, E>(zone_set: u32)
    ensures
        ({
            let start = StateModel::<P, F, E>::empty(zone_set);
            &&& forall|id: Seq<char>| !(#[trigger] start.sessions.contains_key(id))
            &&& start.active_session is None
            &&& start.zone_set == zone_set
            &&& start.zones.len() == 0
            &&& start.next_activation_id == 0
            &&& start.signal_tx is None
        }),
{
}

/// A session that is created is there under its identifier, with the capabilities asked for and the
/// current set of zones. It is new, has no barriers, was never activated and is not connected. All
/// other sessions are as they were, and so is all else.
pub proof fn lemma_created_session_is_new<P, F, E>(
    state: StateModel<P, F, E>,
    id: Seq<char>,
    capabilities: u32,
)
    ensures
        ({
            let after = state.create_session(id, capabilities);
            &&& after.sessions.contains_key(id)
            &&& after.sessions[id].state == CaptureSessionState::Created
            &&& after.sessions[id].capabilities == capabilities
            &&& after.sessions[id].barriers.len() == 0
            &&& after.sessions[id].zone_set == state.zone_set
            &&& after.sessions[id].activation_id == 0
            &&& after.sessions[id].eis_fd is None
            &&& after.sessions[id].eis_connection is None
            &&& after.sessions.remove(id) == state.sessions.remove(id)
            &&& after.active_session == state.active_session
            &&& after.zone_set == state.zone_set
            &&& after.zones == state.zones
            &&& after.next_activation_id == state.next_activation_id
            &&& after.signal_tx == state.signal_tx
        }),
{
    assert(state.create_session(id, capabilities).sessions.remove(id) =~= state.sessions.remove(id));
}

/// Two sessions that are created under different identifiers are both there.
pub proof fn lemma_created_sessions_coexist<P, F, E>(
    state: StateModel<P, F, E>,
    first: Seq<char>,
    first_capabilities: u32,
    second: Seq<char>,
    second_capabilities: u32,
)
    requires
        first != second,
    ensures
        ({
            let after = state.create_session(first, first_capabilities).create_session(
                second,
                second_capabilities,
            );
            &&& after.sessions.contains_key(first)
            &&& after.sessions[first].capabilities == first_capabilities
            &&& after.sessions.contains_key(second)
            &&& after.sessions[second].capabilities == second_capabilities
        }),
{
}

/// Who is answered what. Barriers are refused first for another set of zones, then for want of the
/// session; enabling for want of the session, then for a session that is enabled or active already;
/// disabling and giving back for want of the session. Nothing is refused otherwise.
pub proof fn lemma_answers<P, F, E>(
    state: StateModel<P, F, E>,
    id: Seq<char>,
    zone_set: u32,
    requests: Seq<BarrierRequest>,
)
    ensures
        state.zone_set != zone_set <==> state.set_barriers(id, zone_set, requests) == Err::<
            StateModel<P, F, E>,
            _,
        >(CaptureError::ZoneSetMismatch),
        state.zone_set == zone_set && !state.sessions.contains_key(id) <==> state.set_barriers(
            id,
            zone_set,
            requests,
        ) == Err::<StateModel<P, F, E>, _>(CaptureError::SessionNotFound),
        state.zone_set == zone_set && state.sessions.contains_key(id) <==> state.set_barriers(
            id,
            zone_set,
            requests,
        ) is Ok,
        !state.sessions.contains_key(id) <==> state.enable(id) == Err::<StateModel<P, F, E>, _>(
            CaptureError::SessionNotFound,
        ),
        state.sessions.contains_key(id) && state.sessions[id].state == CaptureSessionState::Enabled
            <==> state.enable(id) == Err::<StateModel<P, F, E>, _>(
            CaptureError::InvalidStateForEnable(CaptureSessionState::Enabled),
        ),
        state.sessions.contains_key(id) && state.sessions[id].state
            == CaptureSessionState::Activated <==> state.enable(id) == Err::<
            StateModel<P, F, E>,
            _,
        >(CaptureError::InvalidStateForEnable(CaptureSessionState::Activated)),
        state.sessions.contains_key(id) && (state.sessions[id].state
            == CaptureSessionState::Created || state.sessions[id].state
            == CaptureSessionState::Disabled) <==> state.enable(id) is Ok,
        !state.sessions.contains_key(id) <==> state.disable(id) == Err::<StateModel<P, F, E>, _>(
            CaptureError::SessionNotFound,
        ),
        state.sessions.contains_key(id) <==> state.disable(id) is Ok,
        !state.sessions.contains_key(id) <==> state.release(id) == Err::<StateModel<P, F, E>, _>(
            CaptureError::SessionNotFound,
        ),
        state.sessions.contains_key(id) <==> state.release(id) is Ok,
{
}

/// Setting barriers gives the session the accepted ones and the set of zones of the request, and
/// touches nothing else: not the session's state, capabilities, activation or connection, no other
/// session, and nothing around the sessions.
pub proof fn lemma_set_barriers_only<P, F, E>(
    state: StateModel<P, F, E>,
    id: Seq<char>,
    zone_set: u32,
    requests: Seq<BarrierRequest>,
)
    requires
        state.zone_set == zone_set,
        state.sessions.contains_key(id),
    ensures
        state.set_barriers(id, zone_set, requests) matches Ok(after) && {
            &&& after.sessions.contains_key(id)
            &&& after.sessions[id].barriers == accepted(requests, state.zones)
            &&& after.sessions[id].zone_set == zone_set
            &&& after.sessions[id].state == state.sessions[id].state
            &&& after.sessions[id].capabilities == state.sessions[id].capabilities
            &&& after.sessions[id].activation_id == state.sessions[id].activation_id
            &&& after.sessions[id].eis_fd == state.sessions[id].eis_fd
            &&& after.sessions[id].eis_connection == state.sessions[id].eis_connection
            &&& after.sessions.remove(id) == state.sessions.remove(id)
            &&& after.active_session == state.active_session
            &&& after.zone_set == state.zone_set
            &&& after.zones == state.zones
            &&& after.next_activation_id == state.next_activation_id
            &&& after.signal_tx == state.signal_tx
        },
{
    let after = state.after(Request::SetBarriers(id, zone_set, requests));
    assert(after.sessions.remove(id) =~= state.sessions.remove(id));
}

/// Enabling, disabling and giving back leave the session there in the state that the request is named
/// for, the latter two as disabled, and touch no other session.
pub proof fn lemma_states_reached<P, F, E>(state: StateModel<P, F, E>, id: Seq<char>)
    ensures
        state.enable(id) matches Ok(after) ==> {
            &&& after.sessions.contains_key(id)
            &&& after.sessions[id].state == CaptureSessionState::Enabled
            &&& after.sessions.remove(id) == state.sessions.remove(id)
            &&& after.active_session == state.active_session
        },
        state.disable(id) matches Ok(after) ==> {
            &&& after.sessions.contains_key(id)
            &&& after.sessions[id].state == CaptureSessionState::Disabled
            &&& after.sessions.remove(id) == state.sessions.remove(id)
            &&& after.active_session == state.active_session
        },
        state.release(id) matches Ok(after) ==> {
            &&& after.sessions.contains_key(id)
            &&& after.sessions[id].state == CaptureSessionState::Disabled
            &&& after.sessions.remove(id) == state.sessions.remove(id)
            &&& after.active_session != Some(id)
            &&& state.active_session != Some(id) ==> after.active_session == state.active_session
        },
{
    let enabled = state.after(Request::Enable(id));
    let disabled = state.after(Request::Disable(id));
    let released = state.after(Request::Release(id));
    assert(enabled.sessions.remove(id) =~= state.sessions.remove(id));
    assert(disabled.sessions.remove(id) =~= state.sessions.remove(id));
    assert(released.sessions.remove(id) =~= state.sessions.remove(id));
}

/// Closing takes out the session, and it alone.
pub proof fn lemma_close_takes_one_out<P, F, E>(state: StateModel<P, F, E>, id: Seq<char>)
    ensures
        state.close(id).sessions == state.sessions.remove(id),
        state.close(id).active_session != Some(id),
        state.active_session != Some(id) ==> state.close(id).active_session
            == state.active_session,
        state.close(id).zone_set == state.zone_set,
        state.close(id).zones == state.zones,
        state.close(id).next_activation_id == state.next_activation_id,
        state.close(id).signal_tx == state.signal_tx,
{
}

/// `intersect` is asked of the whole segment: a check may be made wherever it may be asked of each
/// barrier from its one end to its other.
pub proof fn lemma_whole_segment_is_asked<P, C: Fn(&P, &P, (i32, i32), (i32, i32)) -> Option<P>>(
    intersect: C,
    from: P,
    to: P,
    barrier: Barrier,
)
    ensures
        can_test(intersect, from, to, barrier) <==> call_requires(
            intersect,
            (&from, &to, (barrier.x1, barrier.y1), (barrier.x2, barrier.y2)),
        ),
{
}

/// Where the movement cannot but meet some barrier of an enabled session, between that barrier's two
/// ends, a crossing is found.
pub proof fn lemma_met_barrier_is_found<
    P,
    F,
    E,
    C: Fn(&P, &P, (i32, i32), (i32, i32)) -> Option<P>,
>(
    state: StateModel<P, F, E>,
    id: Seq<char>,
    i: int,
    intersect: C,
    from: P,
    to: P,
    found: Option<(u32, Seq<char>, P)>,
)
    requires
        state.sessions.contains_key(id),
        state.sessions[id].state == CaptureSessionState::Enabled,
        0 <= i < state.sessions[id].barriers.len(),
        ({
            let barrier = state.sessions[id].barriers[i];
            forall|met: Option<P>| #[trigger]
                call_ensures(
                    intersect,
                    (&from, &to, (barrier.x1, barrier.y1), (barrier.x2, barrier.y2)),
                    met,
                ) ==> met is Some
        }),
        state.crossing(intersect, from, to, found),
    ensures
        found is Some,
{
    if found is None {
        let barrier = state.sessions[id].barriers[i];
        assert(state.watching(id));
        assert(call_ensures(
            intersect,
            (&from, &to, (barrier.x1, barrier.y1), (barrier.x2, barrier.y2)),
            None::<P>,
        ));
    }
}

/// What is found is a barrier of an enabled session, by its identifier: the movement meets it at the
/// point given, between the barrier's two ends, and meets none of the session's barriers before it.
pub proof fn lemma_found_barrier_is_met<
    P,
    F,
    E,
    C: Fn(&P, &P, (i32, i32), (i32, i32)) -> Option<P>,
>(
    state: StateModel<P, F, E>,
    barrier_id: u32,
    id: Seq<char>,
    point: P,
    intersect: C,
    from: P,
    to: P,
) -> (i: int)
    requires
        state.crossing(intersect, from, to, Some((barrier_id, id, point))),
    ensures
        state.sessions.contains_key(id),
        state.sessions[id].state == CaptureSessionState::Enabled,
        0 <= i < state.sessions[id].barriers.len(),
        state.sessions[id].barriers[i].id == barrier_id,
        ({
            let barrier = state.sessions[id].barriers[i];
            call_ensures(
                intersect,
                (&from, &to, (barrier.x1, barrier.y1), (barrier.x2, barrier.y2)),
                Some(point),
            )
        }),
        forall|j: int|
            0 <= j < i ==> {
                let earlier = #[trigger] state.sessions[id].barriers[j];
                call_ensures(
                    intersect,
                    (&from, &to, (earlier.x1, earlier.y1), (earlier.x2, earlier.y2)),
                    None::<P>,
                )
            },
{
    choose|i: int|
        {
            &&& #[trigger] crate::crossing::first_met(
                intersect,
                from,
                to,
                state.sessions[id].barriers,
                i,
                point,
            )
            &&& state.sessions[id].barriers[i].id == barrier_id
        }
}

/// Where nothing is found, every barrier of every enabled session was tested between its two ends,
/// and not met.
pub proof fn lemma_nothing_found_nothing_met<
    P,
    F,
    E,
    C: Fn(&P, &P, (i32, i32), (i32, i32)) -> Option<P>,
>(state: StateModel<P, F, E>, id: Seq<char>, i: int, intersect: C, from: P, to: P)
    requires
        state.crossing(intersect, from, to, None),
        state.sessions.contains_key(id),
        state.sessions[id].state == CaptureSessionState::Enabled,
        0 <= i < state.sessions[id].barriers.len(),
    ensures
        ({
            let barrier = state.sessions[id].barriers[i];
            call_ensures(
                intersect,
                (&from, &to, (barrier.x1, barrier.y1), (barrier.x2, barrier.y2)),
                None::<P>,
            )
        }),
{
    assert(state.watching(id));
    assert(crate::crossing::tested(intersect, from, to, state.sessions[id].barriers[i], None));
}

/// The model of the state shows each field as it is, and each session of the table.
pub proof fn lemma_state_shown<P, F, E>(state: InputCaptureState<P, F, E>, id: Seq<char>)
    ensures
        state@.zone_set == state.zone_set,
        state@.zones == state.zones@,
        state@.next_activation_id == state.next_activation_id,
        state@.signal_tx == state.signal_tx,
        state.active_session is None <==> state@.active_session is None,
        state.active_session matches Some(active) ==> state@.active_session == Some(active@),
        state@.sessions.contains_key(id) == state.sessions@.contains_key(id),
        state.sessions@.contains_key(id) ==> state@.sessions[id] == state.sessions@[id]@,
{
}

/// The model of a session shows each field as it is.
pub proof fn lemma_session_shown<F, E>(session: CaptureSession<F, E>)
    ensures
        session@.state == session.state,
        session@.capabilities == session.capabilities,
        session@.barriers == session.barriers@,
        session@.zone_set == session.zone_set,
        session@.activation_id == session.activation_id,
        session@.eis_fd == session.eis_fd,
        session@.eis_connection == session.eis_connection,
{
}

/// The model of a message shows its kind and each field as it is.
pub proof fn lemma_message_shown<P, F>(event: InputCaptureEvent<P, F>)
    ensures
        event@ matches EventModel::SessionCreated { session_id, capabilities } ==> {
            &&& event matches InputCaptureEvent::SessionCreated { session_id: s, capabilities: c }
            &&& s@ == session_id
            &&& c == capabilities
        },
        event@ matches EventModel::SessionClosed { session_id } ==> {
            &&& event matches InputCaptureEvent::SessionClosed { session_id: s }
            &&& s@ == session_id
        },
        event@ matches EventModel::BarriersSet { session_id, barriers, zone_set } ==> {
            &&& event matches InputCaptureEvent::BarriersSet {
                session_id: s,
                barriers: b,
                zone_set: z,
            }
            &&& s@ == session_id
            &&& b@ == barriers
            &&& z == zone_set
        },
        event@ matches EventModel::Enabled { session_id } ==> {
            &&& event matches InputCaptureEvent::Enabled { session_id: s }
            &&& s@ == session_id
        },
        event@ matches EventModel::Disabled { session_id } ==> {
            &&& event matches InputCaptureEvent::Disabled { session_id: s }
            &&& s@ == session_id
        },
        event@ matches EventModel::Released { session_id, activation_id, cursor_position } ==> {
            &&& event matches InputCaptureEvent::Released {
                session_id: s,
                activation_id: a,
                cursor_position: c,
            }
            &&& s@ == session_id
            &&& a == activation_id
            &&& c == cursor_position
        },
        event@ matches EventModel::ConnectEIS { session_id, server_fd } ==> {
            &&& event matches InputCaptureEvent::ConnectEIS { session_id: s, server_fd: f }
            &&& s@ == session_id
            &&& f == server_fd
        },
{
}

/// What a refused client is told: the fixed texts, the state that stood in the way by its name, and
/// the reason that was given.
pub proof fn lemma_refusals_told(state: CaptureSessionState, reason: String)
    ensures
        CaptureError::ZoneSetMismatch.spec_message() == "Zone set mismatch"@,
        CaptureError::SessionNotFound.spec_message() == "Session not found"@,
        CaptureError::InvalidStateForEnable(state).spec_message() == "Invalid state for Enable: "@
            + (match state {
            CaptureSessionState::Created => "Created"@,
            CaptureSessionState::Disabled => "Disabled"@,
            CaptureSessionState::Enabled => "Enabled"@,
            CaptureSessionState::Activated => "Activated"@,
        }),
        CaptureError::SocketPairFailed(reason).spec_message() == "socketpair failed: "@ + reason@,
{
}

} // verus!
