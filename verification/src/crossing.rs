//! Which barrier a movement of the cursor crosses.

use vstd::prelude::*;

use crate::barrier::Barrier;
use crate::session::CaptureSessionState;
use crate::state::{InputCaptureState, StateModel};

verus! {

/// `intersect` may be asked where the movement meets `barrier`.
pub open spec fn can_test<P, C: Fn(&P, &P, (i32, i32), (i32, i32)) -> Option<P>>(
    intersect: C,
    from: P,
    to: P,
    barrier: Barrier,
) -> bool {
    call_requires(intersect, (&from, &to, (barrier.x1, barrier.y1), (barrier.x2, barrier.y2)))
}

/// `intersect` may say `met` of where the movement meets `barrier`.
pub open spec fn tested<P, C: Fn(&P, &P, (i32, i32), (i32, i32)) -> Option<P>>(
    intersect: C,
    from: P,
    to: P,
    barrier: Barrier,
    met: Option<P>,
) -> bool {
    call_ensures(intersect, (&from, &to, (barrier.x1, barrier.y1), (barrier.x2, barrier.y2)), met)
}

/// The first of `barriers` that the movement meets is at `i`, and it is met at `point`.
pub open spec fn first_met<P, C: Fn(&P, &P, (i32, i32), (i32, i32)) -> Option<P>>(
    intersect: C,
    from: P,
    to: P,
    barriers: Seq<Barrier>,
    i: int,
    point: P,
) -> bool {
    &&& 0 <= i < barriers.len()
    &&& tested(intersect, from, to, barriers[i], Some(point))
    &&& forall|j: int| 0 <= j < i ==> tested(intersect, from, to, #[trigger] barriers[j], None)
}

/// The first of `barriers` that the movement meets has the identifier `barrier_id`, and it is met
/// at `point`.
pub open spec fn crossed<P, C: Fn(&P, &P, (i32, i32), (i32, i32)) -> Option<P>>(
    intersect: C,
    from: P,
    to: P,
    barriers: Seq<Barrier>,
    barrier_id: u32,
    point: P,
) -> bool {
    exists|i: int|
        {
            &&& #[trigger] first_met(intersect, from, to, barriers, i, point)
            &&& barriers[i].id == barrier_id
        }
}

/// The movement meets none of `barriers`.
pub open spec fn none_met<P, C: Fn(&P, &P, (i32, i32), (i32, i32)) -> Option<P>>(
    intersect: C,
    from: P,
    to: P,
    barriers: Seq<Barrier>,
) -> bool {
    forall|j: int|
        0 <= j < barriers.len() ==> tested(intersect, from, to, #[trigger] barriers[j], None)
}

impl<P, F, E> StateModel<P, F, E> {
    /// The session `id` watches its barriers.
    pub open spec fn watching(self, id: Seq<char>) -> bool {
        self.sessions.contains_key(id) && self.sessions[id].state == CaptureSessionState::Enabled
    }

    /// What a check of the movement may find: the first barrier met of some watching session, or
    /// nothing where no watching session has a barrier that is met.
    pub open spec fn crossing<C: Fn(&P, &P, (i32, i32), (i32, i32)) -> Option<P>>(
        self,
        intersect: C,
        from: P,
        to: P,
        found: Option<(u32, Seq<char>, P)>,
    ) -> bool {
        match found {
            Some((barrier_id, id, point)) => {
                &&& self.watching(id)
                &&& crossed(intersect, from, to, self.sessions[id].barriers, barrier_id, point)
            },
            None => forall|id: Seq<char>| #[trigger]
                self.watching(id) ==> none_met(intersect, from, to, self.sessions[id].barriers),
        }
    }
}

/// Looks for the first of `barriers` that the movement meets: its identifier, and where.
fn first_crossing<P, C: Fn(&P, &P, (i32, i32), (i32, i32)) -> Option<P>>(
    barriers: &Vec<Barrier>,
    from: &P,
    to: &P,
    intersect: &C,
) -> (found: Option<(u32, P)>)
    requires
        forall|i: int|
            0 <= i < barriers@.len() ==> can_test(*intersect, *from, *to, #[trigger] barriers@[i]),
    ensures
        match found {
            Some((barrier_id, point)) => crossed(
                *intersect,
                *from,
                *to,
                barriers@,
                barrier_id,
                point,
            ),
            None => none_met(*intersect, *from, *to, barriers@),
        },
{
    let mut i: usize = 0;
    while i < barriers.len()
        invariant
            i <= barriers@.len(),
            forall|j: int|
                0 <= j < barriers@.len() ==> can_test(
                    *intersect,
                    *from,
                    *to,
                    #[trigger] barriers@[j],
                ),
            forall|j: int|
                0 <= j < i ==> tested(*intersect, *from, *to, #[trigger] barriers@[j], None),
        decreases barriers@.len() - i,
    {
        let barrier = barriers[i];
        assert(can_test(*intersect, *from, *to, barriers@[i as int]));
        let met = intersect(from, to, (barrier.x1, barrier.y1), (barrier.x2, barrier.y2));
        assert(tested(*intersect, *from, *to, barrier, met));
        match met {
            Some(point) => {
                assert(first_met(*intersect, *from, *to, barriers@, i as int, point));
                assert(crossed(*intersect, *from, *to, barriers@, barrier.id, point));
                return Some((barrier.id, point));
            },
            None => {},
        }
        i = i + 1;
    }
    None
}

impl<P, F, E> InputCaptureState<P, F, E> {
    /// Check if cursor movement from `from` to `to` crosses any barrier in enabled sessions
    /// Returns (barrier_id, session_id, intersection_point) if a crossing is detected
    ///
    /// `intersect` says where the movement, given by its two ends, meets the segment between two
    /// points, if it does. Where barriers of several sessions are met, any of these sessions may be
    /// the one that is returned.
    pub fn check_barrier_crossing<C: Fn(&P, &P, (i32, i32), (i32, i32)) -> Option<P>>(
        &self,
        from: P,
        to: P,
        intersect: C,
    ) -> (found: Option<(u32, String, P)>)
        requires
            forall|id: Seq<char>, i: int|
                self@.watching(id) && 0 <= i < self@.sessions[id].barriers.len() ==> can_test(
                    intersect,
                    from,
                    to,
                    #[trigger] self@.sessions[id].barriers[i],
                ),
        ensures
            self@.crossing(
                intersect,
                from,
                to,
                match found {
                    Some((barrier_id, id, point)) => Some((barrier_id, id@, point)),
                    None => None,
                },
            ),
    {
        let n: usize = self.sessions.len();
        let ghost order = self.sessions.order();
        let mut k: usize = 0;
        while k < n
            invariant
                k <= n,
                n == order.len(),
                order == self.sessions.order(),
                forall|id: Seq<char>, i: int|
                    self@.watching(id) && 0 <= i < self@.sessions[id].barriers.len() ==> can_test(
                        intersect,
                        from,
                        to,
                        #[trigger] self@.sessions[id].barriers[i],
                    ),
                forall|m: int|
                    0 <= m < k && self@.watching(#[trigger] order[m]) ==> none_met(
                        intersect,
                        from,
                        to,
                        self@.sessions[order[m]].barriers,
                    ),
            decreases n - k,
        {
            let (id, session) = self.sessions.entry(k);
            assert(self@.sessions[id@] == session@);
            if session.state == CaptureSessionState::Enabled {
                assert(self@.watching(id@));
                assert forall|i: int| 0 <= i < session.barriers@.len() implies can_test(
                    intersect,
                    from,
                    to,
                    #[trigger] session.barriers@[i],
                ) by {
                    assert(self@.sessions[id@].barriers[i] == session.barriers@[i]);
                }
                match first_crossing(&session.barriers, &from, &to, &intersect) {
                    Some((barrier_id, point)) => {
                        return Some((barrier_id, id.clone(), point));
                    },
                    None => {},
                }
            }
            k = k + 1;
        }
        proof {
            assert forall|id: Seq<char>| #[trigger] self@.watching(id) implies none_met(
                intersect,
                from,
                to,
                self@.sessions[id].barriers,
            ) by {
                assert(self.sessions@.contains_key(id));
                let m = order.index_of(id);
                assert(order[m] == id);
            }
        }
        None
    }
}

} // verus!
