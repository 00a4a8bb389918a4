//! The player's movement decision: clamp the requested step to the map,
//! prefer attacking a fightable occupant of the destination, otherwise walk
//! when the terrain allows it.

use vstd::prelude::*;
use crate::geometry::Point;
use crate::map::DungeonMap;

verus! {

/// What a movement request resolves to.
#[derive(Clone, Copy, Debug, PartialEq, Eq, Structural)]
pub enum PlayerMove {
    /// Melee the entity with this identifier.
    Attack(u64),
    /// Step onto this tile.
    Walk(Point),
    /// Do nothing.
    Stay,
}

/// The requested destination, clamped into the map.
pub open spec fn spec_clamped_dest(m: DungeonMap, pos: Point, dx: int, dy: int) -> Point {
    let x = if pos.x + dx < 0 {
        0
    } else if pos.x + dx > m.width - 1 {
        m.width - 1
    } else {
        pos.x + dx
    };
    let y = if pos.y + dy < 0 {
        0
    } else if pos.y + dy > m.height - 1 {
        m.height - 1
    } else {
        pos.y + dy
    };
    Point { x: x as i32, y: y as i32 }
}

/// The first occupant of a tile that can be fought: the first id of
/// `occupants` that also appears in `combatants`.
pub open spec fn spec_first_target(occupants: Seq<u64>, combatants: Seq<u64>) -> Option<u64>
    decreases occupants.len(),
{
    if occupants.len() == 0 {
        None
    } else if combatants.contains(occupants.first()) {
        Some(occupants.first())
    } else {
        spec_first_target(occupants.drop_first(), combatants)
    }
}

fn contains_id(v: &Vec<u64>, id: u64) -> (r: bool)
    ensures
        r == v@.contains(id),
{
    let mut i: usize = 0;
    while i < v.len()
        invariant
            i <= v@.len(),
            forall|j: int| 0 <= j < i ==> v@[j] != id,
        decreases v@.len() - i,
    {
        if v[i] == id {
            assert(v@.contains(id));
            return true;
        }
        i = i + 1;
    }
    assert(!v@.contains(id));
    false
}

/// Resolve one movement request for the player standing at `pos`:
/// clamp the step into the map; if the destination tile holds an occupant
/// that appears in `combatants` (the ids carrying combat statistics),
/// attack the first such occupant; otherwise walk iff the destination's
/// terrain is no blocker.
pub fn try_move_player(
    delta_x: i32,
    delta_y: i32,
    map: &DungeonMap,
    pos: Point,
    combatants: &Vec<u64>,
) -> (r: PlayerMove)
    requires
        map.wf(),
        map.spec_in_bounds(pos),
        -1000000 <= delta_x <= 1000000,
        -1000000 <= delta_y <= 1000000,
        map.width <= 1000000,
        map.height <= 1000000,
    ensures
        ({
            let dest = spec_clamped_dest(*map, pos, delta_x as int, delta_y as int);
            let idx = dest.y * map.width + dest.x;
            r == (match spec_first_target(map.tile_content@[idx]@, combatants@) {
                Some(t) => PlayerMove::Attack(t),
                None => if !map.tiles@[idx].spec_is_blocker() {
                    PlayerMove::Walk(dest)
                } else {
                    PlayerMove::Stay
                },
            })
        }),
{
    let tx = pos.x + delta_x;
    let ty = pos.y + delta_y;
    let x = if tx < 0 {
        0
    } else if tx > map.width - 1 {
        map.width - 1
    } else {
        tx
    };
    let y = if ty < 0 {
        0
    } else if ty > map.height - 1 {
        map.height - 1
    } else {
        ty
    };
    let dest = Point { x, y };
    let dest_idx = map.point2d_to_index(dest);
    let occupants = &map.tile_content[dest_idx];
    let ghost occ = occupants@;
    proof {
        assert(occ.subrange(0, occ.len() as int) =~= occ);
    }
    let mut i: usize = 0;
    while i < occupants.len()
        invariant
            map.wf(),
            dest == spec_clamped_dest(*map, pos, delta_x as int, delta_y as int),
            dest_idx as int == dest.y * map.width + dest.x,
            dest_idx < map.area(),
            occ == map.tile_content@[dest_idx as int]@,
            occ == occupants@,
            i <= occ.len(),
            spec_first_target(occ, combatants@) == spec_first_target(
                occ.subrange(i as int, occ.len() as int),
                combatants@,
            ),
        decreases occ.len() - i,
    {
        let candidate = occupants[i];
        let is_target = contains_id(combatants, candidate);
        proof {
            let tail = occ.subrange(i as int, occ.len() as int);
            assert(tail.len() > 0);
            assert(tail.first() == occ[i as int]);
            assert(tail.drop_first() =~= occ.subrange(i + 1, occ.len() as int));
            if is_target {
                assert(spec_first_target(tail, combatants@) == Some(candidate));
            } else {
                assert(spec_first_target(tail, combatants@) == spec_first_target(
                    occ.subrange(i + 1, occ.len() as int),
                    combatants@,
                ));
            }
        }
        if is_target {
            return PlayerMove::Attack(candidate);
        }
        i = i + 1;
    }
    proof {
        assert(occ.subrange(occ.len() as int, occ.len() as int) =~= Seq::<u64>::empty());
    }
    if !map.tiles[dest_idx].is_blocker() {
        PlayerMove::Walk(dest)
    } else {
        PlayerMove::Stay
    }
}

} // verus!
