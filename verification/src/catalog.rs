//! Track-catalog lookup: choosing, among a list of known tracks, the one
//! whose start/finish line is nearest to a given position. The durable store
//! that the list is loaded from is a collaborator outside this library; the
//! selection rule itself lives here.

use vstd::prelude::*;

use crate::timer::{Track, TrackModel};

verus! {

/// The squared planar distance from position (x, y) to the first endpoint of
/// the track's start/finish segment. Squares preserve the ordering of
/// distances, so no root is ever needed.
pub open spec fn spec_dist2(t: TrackModel, x: int, y: int) -> int {
    let dx = x - t.start_finish.start.x;
    let dy = y - t.start_finish.start.y;
    dx * dx + dy * dy
}

/// Computes `spec_dist2` exactly. Differences of `i32` values fit in 33 bits
/// and their squares in 66 bits, so the `i128` arithmetic cannot overflow.
fn dist2(t: &Track, lat: i32, long: i32) -> (r: i128)
    ensures
        r == spec_dist2(t@, lat as int, long as int),
{
    let sf = t.start_finish();
    let dx: i128 = lat as i128 - sf.start.x as i128;
    let dy: i128 = long as i128 - sf.start.y as i128;
    proof {
        assert(0 <= dx * dx <= 0x1_0000_0000_0000_0000i128) by (nonlinear_arith)
            requires
                -0x1_0000_0000i128 <= dx <= 0x1_0000_0000i128,
        ;
        assert(0 <= dy * dy <= 0x1_0000_0000_0000_0000i128) by (nonlinear_arith)
            requires
                -0x1_0000_0000i128 <= dy <= 0x1_0000_0000i128,
        ;
    }
    dx * dx + dy * dy
}

/// Finds the track with the start/finish line closest to the coordinate:
/// `None` exactly when the list is empty, otherwise a copy of the earliest
/// track at minimal squared distance (on ties the first one wins).
pub fn find_nearest(tracks: &Vec<Track>, lat: i32, long: i32) -> (r: Option<Track>)
    ensures
        r is None <==> tracks@.len() == 0,
        r matches Some(t) ==> exists|i: int|
            {
                &&& 0 <= i < tracks@.len()
                &&& t@ == tracks@[i]@
                &&& forall|j: int|
                    0 <= j < tracks@.len() ==> #[trigger] spec_dist2(tracks@[j]@, lat as int, long as int)
                        >= spec_dist2(tracks@[i]@, lat as int, long as int)
                &&& forall|j: int|
                    0 <= j < i ==> #[trigger] spec_dist2(tracks@[j]@, lat as int, long as int)
                        > spec_dist2(tracks@[i]@, lat as int, long as int)
            },
{
    if tracks.len() == 0 {
        return None;
    }
    let mut best: usize = 0;
    let mut best_d: i128 = dist2(&tracks[0], lat, long);
    let mut i: usize = 1;
    while i < tracks.len()
        invariant
            1 <= i <= tracks@.len(),
            0 <= best < i,
            best_d == spec_dist2(tracks@[best as int]@, lat as int, long as int),
            forall|j: int|
                0 <= j < i ==> #[trigger] spec_dist2(tracks@[j]@, lat as int, long as int) >= best_d,
            forall|j: int|
                0 <= j < best ==> #[trigger] spec_dist2(tracks@[j]@, lat as int, long as int)
                    > best_d,
        decreases tracks@.len() - i,
    {
        let d = dist2(&tracks[i], lat, long);
        if d < best_d {
            best = i;
            best_d = d;
        }
        i += 1;
    }
    let chosen = tracks[best].copy();
    proof {
        let gi = best as int;
        assert(0 <= gi < tracks@.len() && chosen@ == tracks@[gi]@);
    }
    Some(chosen)
}

} // verus!
