//! The mobile-agent decision step: when an agent is close enough to melee,
//! and how it advances along a successful path while keeping the blocking
//! flags in step with its position.

use vstd::prelude::*;
use crate::components::Position;
use crate::geometry::Point;
use crate::map::DungeonMap;
use crate::visibility::Viewshed;

verus! {

/// Whether two grid points are within melee reach of each other, diagonal
/// included: the squared distance between them is at most two.
pub fn monster_in_melee_range(a: Point, b: Point) -> (r: bool)
    requires
        -1000000 <= a.x <= 1000000,
        -1000000 <= a.y <= 1000000,
        -1000000 <= b.x <= 1000000,
        -1000000 <= b.y <= 1000000,
    ensures
        r == ((a.x - b.x) * (a.x - b.x) + (a.y - b.y) * (a.y - b.y) <= 2),
{
    let dx = (a.x - b.x) as i64;
    let dy = (a.y - b.y) as i64;
    proof {
        assert(dx * dx <= 4000000000000i64 && dx * dx >= 0) by (nonlinear_arith)
            requires
                -2000000 <= dx <= 2000000,
        ;
        assert(dy * dy <= 4000000000000i64 && dy * dy >= 0) by (nonlinear_arith)
            requires
                -2000000 <= dy <= 2000000,
        ;
    }
    dx * dx + dy * dy <= 2
}

pub struct MonsterAI {}

impl MonsterAI {
    /// Advance a mobile agent one step along a path-query result. When the
    /// query succeeded with more than two steps, the agent moves to the
    /// path's second step, clears `blocked` at the vacated tile, sets it at
    /// the newly occupied tile, and marks its viewshed dirty; otherwise
    /// nothing changes.
    pub fn monster_advance(
        map: &mut DungeonMap,
        pos: &mut Position,
        viewshed: &mut Viewshed,
        success: bool,
        steps: &Vec<usize>,
    ) -> (moved: bool)
        requires
            old(map).wf(),
            old(map).spec_in_bounds(old(pos).point),
            success && steps@.len() > 2 ==> steps@[1] < old(map).area(),
        ensures
            final(map).wf(),
            moved == (success && steps@.len() > 2),
            !moved ==> *final(map) == *old(map) && *final(pos) == *old(pos) && *final(viewshed)
                == *old(viewshed),
            moved ==> ({
                let w = old(map).width as int;
                let old_idx = old(pos).point.y * w + old(pos).point.x;
                let new_idx = steps@[1] as int;
                &&& *final(map) == (DungeonMap { blocked: final(map).blocked, ..*old(map) })
                &&& final(map).blocked@ == old(map).blocked@.update(old_idx, false).update(
                    new_idx,
                    true,
                )
                &&& final(pos).point.x == new_idx % w
                &&& final(pos).point.y == new_idx / w
                &&& final(map).spec_in_bounds(final(pos).point)
                &&& *final(viewshed) == (Viewshed { dirty: true, ..*old(viewshed) })
            }),
    {
        if success && steps.len() > 2 {
            let next_point = map.index_to_point2d(steps[1]);
            let last_point = map.point2d_to_index(pos.point);
            map.blocked[last_point] = false;
            pos.point.x = next_point.x;
            pos.point.y = next_point.y;
            map.blocked[steps[1]] = true;
            viewshed.dirty = true;
            true
        } else {
            false
        }
    }
}

} // verus!
