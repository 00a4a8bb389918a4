//! The per-turn spatial index: blocking flags and per-tile occupant lists,
//! cleared and rebuilt from the current entity roster every turn so that no
//! stale data survives from the previous turn.

use vstd::prelude::*;
use crate::map::DungeonMap;

verus! {

/// One roster entry handed in by the entity storage each turn: an entity's
/// identifier, its position, and whether it blocks movement.
#[derive(Clone, Copy, Debug, PartialEq, Eq, Structural)]
pub struct EntityPos {
    pub id: u64,
    pub x: i32,
    pub y: i32,
    pub blocks: bool,
}

impl EntityPos {
    pub open spec fn spec_idx(self, width: int) -> int {
        self.y * width + self.x
    }

    pub open spec fn spec_point(self) -> crate::geometry::Point {
        crate::geometry::Point { x: self.x, y: self.y }
    }
}

/// The occupant list of tile `idx`: every roster id resolving there, in
/// roster order.
pub open spec fn spec_occupants(roster: Seq<EntityPos>, width: int, idx: int) -> Seq<u64>
    decreases roster.len(),
{
    if roster.len() == 0 {
        Seq::empty()
    } else {
        let prefix = spec_occupants(roster.drop_last(), width, idx);
        if roster.last().spec_idx(width) == idx {
            prefix.push(roster.last().id)
        } else {
            prefix
        }
    }
}

/// Whether some blocking entity of the roster resolves to tile `idx`.
pub open spec fn spec_entity_blocks(roster: Seq<EntityPos>, width: int, idx: int) -> bool {
    exists|j: int|
        0 <= j < roster.len() && (#[trigger] roster[j]).blocks && roster[j].spec_idx(width) == idx
}

pub struct MapIndexingSystem {}

impl MapIndexingSystem {
    /// Rebuild the index for this turn: clear `blocked` back to the terrain
    /// and `tile_content` to empty, then fold in the roster. Afterwards a
    /// tile is blocked iff its terrain blocks or a blocking entity stands on
    /// it, and each tile lists exactly the ids standing on it, in roster
    /// order.
    pub fn run(map: &mut DungeonMap, roster: &Vec<EntityPos>)
        requires
            old(map).wf(),
            forall|j: int|
                0 <= j < roster@.len() ==> old(map).spec_in_bounds(
                    (#[trigger] roster@[j]).spec_point(),
                ),
        ensures
            final(map).wf(),
            *final(map) == (DungeonMap {
                blocked: final(map).blocked,
                tile_content: final(map).tile_content,
                ..*old(map)
            }),
            forall|i: int|
                0 <= i < old(map).area() ==> final(map).blocked@[i] == (old(
                    map,
                ).tiles@[i].spec_is_blocker() || spec_entity_blocks(
                    roster@,
                    old(map).width as int,
                    i,
                )),
            forall|i: int|
                0 <= i < old(map).area() ==> final(map).tile_content@[i]@ == spec_occupants(
                    roster@,
                    old(map).width as int,
                    i,
                ),
    {
        let ghost w = old(map).width as int;
        map.populate_blocked();
        map.clear_content_index();
        let mut k: usize = 0;
        while k < roster.len()
            invariant
                map.wf(),
                w == map.width as int,
                k <= roster@.len(),
                *map == (DungeonMap {
                    blocked: map.blocked,
                    tile_content: map.tile_content,
                    ..*old(map)
                }),
                forall|j: int|
                    0 <= j < roster@.len() ==> map.spec_in_bounds(
                        (#[trigger] roster@[j]).spec_point(),
                    ),
                forall|i: int|
                    0 <= i < map.area() ==> map.blocked@[i] == (old(
                        map,
                    ).tiles@[i].spec_is_blocker() || spec_entity_blocks(
                        roster@.take(k as int),
                        w,
                        i,
                    )),
                forall|i: int|
                    0 <= i < map.area() ==> map.tile_content@[i]@ == spec_occupants(
                        roster@.take(k as int),
                        w,
                        i,
                    ),
            decreases roster@.len() - k,
        {
            let e = roster[k];
            let idx = map.point2d_to_index(crate::geometry::Point { x: e.x, y: e.y });
            let ghost pre_blocked = map.blocked@;
            let ghost pre_content = map.tile_content@;
            if e.blocks {
                map.blocked[idx] = true;
            }
            map.tile_content[idx].push(e.id);
            proof {
                let prefix = roster@.take(k as int);
                let extended = roster@.take(k + 1);
                assert(extended.drop_last() =~= prefix);
                assert(extended.last() == roster@[k as int]);
                assert forall|i: int| 0 <= i < map.area() implies map.blocked@[i] == (old(
                    map,
                ).tiles@[i].spec_is_blocker() || spec_entity_blocks(extended, w, i)) by {
                    if i == idx {
                        if e.blocks {
                            assert(extended[k as int].blocks && extended[k as int].spec_idx(w)
                                == i);
                            assert(spec_entity_blocks(extended, w, i));
                        } else {
                            assert(spec_entity_blocks(extended, w, i) == spec_entity_blocks(
                                prefix,
                                w,
                                i,
                            )) by {
                                if spec_entity_blocks(extended, w, i) {
                                    let j = choose|j: int|
                                        0 <= j < extended.len() && (#[trigger] extended[j]).blocks
                                            && extended[j].spec_idx(w) == i;
                                    assert(j < k as int);
                                    assert(prefix[j].blocks && prefix[j].spec_idx(w) == i);
                                }
                                if spec_entity_blocks(prefix, w, i) {
                                    let j = choose|j: int|
                                        0 <= j < prefix.len() && (#[trigger] prefix[j]).blocks
                                            && prefix[j].spec_idx(w) == i;
                                    assert(extended[j].blocks && extended[j].spec_idx(w) == i);
                                }
                            }
                        }
                    } else {
                        assert(map.blocked@[i] == pre_blocked[i]);
                        assert(spec_entity_blocks(extended, w, i) == spec_entity_blocks(
                            prefix,
                            w,
                            i,
                        )) by {
                            if spec_entity_blocks(extended, w, i) {
                                let j = choose|j: int|
                                    0 <= j < extended.len() && (#[trigger] extended[j]).blocks
                                        && extended[j].spec_idx(w) == i;
                                assert(j < k as int);
                                assert(prefix[j].blocks && prefix[j].spec_idx(w) == i);
                            }
                            if spec_entity_blocks(prefix, w, i) {
                                let j = choose|j: int|
                                    0 <= j < prefix.len() && (#[trigger] prefix[j]).blocks
                                        && prefix[j].spec_idx(w) == i;
                                assert(extended[j].blocks && extended[j].spec_idx(w) == i);
                            }
                        }
                    }
                }
                assert forall|i: int| 0 <= i < map.area() implies map.tile_content@[i]@
                    == spec_occupants(extended, w, i) by {
                    if i == idx {
                        assert(extended.last().spec_idx(w) == i);
                        assert(spec_occupants(extended, w, i) == spec_occupants(
                            prefix,
                            w,
                            i,
                        ).push(extended.last().id));
                        assert(map.tile_content@[i]@ == pre_content[i]@.push(e.id));
                    } else {
                        assert(extended.last().spec_idx(w) != i);
                        assert(spec_occupants(extended, w, i) == spec_occupants(prefix, w, i));
                        assert(map.tile_content@[i]@ == pre_content[i]@);
                    }
                }
            }
            k = k + 1;
        }
        proof {
            assert(roster@.take(roster@.len() as int) =~= roster@);
        }
    }
}

} // verus!
