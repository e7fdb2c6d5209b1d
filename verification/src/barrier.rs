//! Barriers and zones, and which requested barriers can be placed.

use vstd::prelude::*;

verus! {

/// Barrier definition: axis-aligned line segment on output edge
#[derive(Debug, Clone, Copy)]
pub struct Barrier {
    pub id: u32,
    pub x1: i32,
    pub y1: i32,
    pub x2: i32,
    pub y2: i32,
}

/// Zone representing an output area
#[derive(Debug, Clone, Copy)]
pub struct Zone {
    pub width: u32,
    pub height: u32,
    pub x: i32,
    pub y: i32,
}

/// A barrier as a client asks for it: its identifier, then `x1`, `y1`, `x2` and `y2`.
pub type BarrierRequest = (u32, (i32, i32, i32, i32));

/// A zone as it is reported to a client: width, height, `x` and `y`.
pub type ZoneReport = (u32, u32, i32, i32);

impl Barrier {
    /// The ends differ in exactly one coordinate: the segment lies along an axis and is no point.
    pub open spec fn along_axis(self) -> bool {
        (self.x1 == self.x2) != (self.y1 == self.y2)
    }

    /// The segment lies on one of the four edges of `zone`.
    pub open spec fn on_edge(self, zone: Zone) -> bool {
        let left = zone.x as int;
        let right = zone.x + zone.width;
        let top = zone.y as int;
        let bottom = zone.y + zone.height;
        ||| {
            &&& self.x1 == self.x2
            &&& self.x1 == left || self.x1 == right
            &&& top <= self.y1 <= bottom
            &&& top <= self.y2 <= bottom
        }
        ||| {
            &&& self.y1 == self.y2
            &&& self.y1 == top || self.y1 == bottom
            &&& left <= self.x1 <= right
            &&& left <= self.x2 <= right
        }
    }

    /// The segment lies along an axis, is no point, and lies on an edge of one of `zones`.
    pub open spec fn placeable(self, zones: Seq<Zone>) -> bool {
        &&& self.along_axis()
        &&& exists|k: int| 0 <= k < zones.len() && self.on_edge(#[trigger] zones[k])
    }

    /// Whether the segment lies on one of the four edges of `zone`.
    fn is_on_edge(&self, zone: &Zone) -> (on_edge: bool)
        ensures
            on_edge == self.on_edge(*zone),
    {
        let left: i64 = zone.x as i64;
        let right: i64 = zone.x as i64 + zone.width as i64;
        let top: i64 = zone.y as i64;
        let bottom: i64 = zone.y as i64 + zone.height as i64;
        let (x1, y1): (i64, i64) = (self.x1 as i64, self.y1 as i64);
        let (x2, y2): (i64, i64) = (self.x2 as i64, self.y2 as i64);
        let upright = x1 == x2 && (x1 == left || x1 == right) && top <= y1 && y1 <= bottom && top
            <= y2 && y2 <= bottom;
        let level = y1 == y2 && (y1 == top || y1 == bottom) && left <= x1 && x1 <= right && left
            <= x2 && x2 <= right;
        upright || level
    }

    /// Whether the segment can be placed as a barrier where the outputs are `zones`.
    pub fn is_placeable(&self, zones: &Vec<Zone>) -> (placeable: bool)
        ensures
            placeable == self.placeable(zones@),
    {
        // Must be axis-aligned
        if self.x1 != self.x2 && self.y1 != self.y2 {
            return false;
        }
        // Must not be a point
        if self.x1 == self.x2 && self.y1 == self.y2 {
            return false;
        }
        // Must lie on an output edge
        let mut k: usize = 0;
        while k < zones.len()
            invariant
                k <= zones@.len(),
                self.along_axis(),
                forall|j: int| 0 <= j < k ==> !self.on_edge(#[trigger] zones@[j]),
            decreases zones@.len() - k,
        {
            if self.is_on_edge(&zones[k]) {
                assert(self.on_edge(zones@[k as int]));
                return true;
            }
            k = k + 1;
        }
        false
    }
}

/// The barrier that a request describes.
pub open spec fn requested(request: BarrierRequest) -> Barrier {
    Barrier {
        id: request.0,
        x1: request.1.0,
        y1: request.1.1,
        x2: request.1.2,
        y2: request.1.3,
    }
}

/// The barriers of the requests that can be placed where the outputs are `zones`, in the order of the requests.
pub open spec fn accepted(requests: Seq<BarrierRequest>, zones: Seq<Zone>) -> Seq<Barrier> {
    requests.map_values(|request: BarrierRequest| requested(request)).filter(
        |barrier: Barrier| barrier.placeable(zones),
    )
}

/// The identifiers of the requests that cannot be placed, in the order of the requests.
pub open spec fn refused(requests: Seq<BarrierRequest>, zones: Seq<Zone>) -> Seq<u32> {
    requests.map_values(|request: BarrierRequest| requested(request)).filter(
        |barrier: Barrier| !barrier.placeable(zones),
    ).map_values(|barrier: Barrier| barrier.id)
}

/// What is reported of a zone.
pub open spec fn reported(zone: Zone) -> ZoneReport {
    (zone.width, zone.height, zone.x, zone.y)
}

/// Parts the requests into the barriers to place and the identifiers of those that fail.
pub fn sort_barriers(requests: &Vec<BarrierRequest>, zones: &Vec<Zone>) -> (sorted: (
    Vec<Barrier>,
    Vec<u32>,
))
    ensures
        sorted.0@ == accepted(requests@, zones@),
        sorted.1@ == refused(requests@, zones@),
{
    let mut valid: Vec<Barrier> = Vec::new();
    let mut failed: Vec<u32> = Vec::new();
    let mut i: usize = 0;
    proof {
        reveal(Seq::filter);
        assert(accepted(requests@.take(0), zones@) =~= valid@);
        assert(refused(requests@.take(0), zones@) =~= failed@);
    }
    while i < requests.len()
        invariant
            i <= requests@.len(),
            valid@ == accepted(requests@.take(i as int), zones@),
            failed@ == refused(requests@.take(i as int), zones@),
        decreases requests@.len() - i,
    {
        let (id, (x1, y1, x2, y2)) = requests[i];
        proof {
            lemma_next_request(requests@, zones@, i as int);
        }
        let barrier = Barrier { id, x1, y1, x2, y2 };
        if barrier.is_placeable(zones) {
            valid.push(barrier);
        } else {
            failed.push(id);
        }
        i = i + 1;
    }
    assert(requests@.take(requests@.len() as int) =~= requests@);
    (valid, failed)
}

/// One more request adds its barrier to those accepted, or its identifier to those refused.
pub(crate) proof fn lemma_next_request(requests: Seq<BarrierRequest>, zones: Seq<Zone>, i: int)
    requires
        0 <= i < requests.len(),
    ensures
        accepted(requests.take(i + 1), zones) == if requested(requests[i]).placeable(zones) {
            accepted(requests.take(i), zones).push(requested(requests[i]))
        } else {
            accepted(requests.take(i), zones)
        },
        refused(requests.take(i + 1), zones) == if requested(requests[i]).placeable(zones) {
            refused(requests.take(i), zones)
        } else {
            refused(requests.take(i), zones).push(requests[i].0)
        },
{
    reveal(Seq::filter);
    let to_barrier = |request: BarrierRequest| requested(request);
    let barriers = requests.take(i + 1).map_values(to_barrier);
    assert(barriers.drop_last() =~= requests.take(i).map_values(to_barrier));
    assert(barriers.last() == requested(requests[i]));
    let before = requests.take(i).map_values(to_barrier).filter(
        |barrier: Barrier| !barrier.placeable(zones),
    );
    assert(before.push(requested(requests[i])).map_values(|barrier: Barrier| barrier.id)
        =~= before.map_values(|barrier: Barrier| barrier.id).push(requests[i].0));
}

} // verus!
