//! Visibility bookkeeping: each sighted entity's viewshed cache, and the
//! shared revealed/visible overlay that the player's sight drives.
//!
//! The field-of-view sweep itself is an outside concern; this pass takes the
//! swept point set as input, clips it to the map, and applies it.

use vstd::prelude::*;
use crate::geometry::Point;
use crate::map::DungeonMap;

verus! {

/// A sighted entity's cached visible-point set, its sight range, and the
/// recompute-needed flag. The cache is only ever cleared and rebuilt whole,
/// never patched.
#[derive(Clone, Debug)]
pub struct Viewshed {
    pub visible_tiles: Vec<Point>,
    pub range: i32,
    pub dirty: bool,
}

impl Viewshed {
    /// A fresh, empty viewshed that still needs its first recompute.
    pub fn new(range: i32) -> (r: Viewshed)
        ensures
            r.visible_tiles@.len() == 0,
            r.range == range,
            r.dirty,
    {
        Viewshed { visible_tiles: Vec::new(), range, dirty: true }
    }

    /// Whether this viewshed currently has the given point in sight.
    pub fn sees(&self, p: Point) -> (r: bool)
        ensures
            r == self.visible_tiles@.contains(p),
    {
        let mut i: usize = 0;
        while i < self.visible_tiles.len()
            invariant
                i <= self.visible_tiles@.len(),
                forall|j: int| 0 <= j < i ==> self.visible_tiles@[j] != p,
            decreases self.visible_tiles@.len() - i,
        {
            if self.visible_tiles[i] == p {
                assert(self.visible_tiles@.contains(p));
                return true;
            }
            i = i + 1;
        }
        assert(!self.visible_tiles@.contains(p));
        false
    }
}

/// Whether a point lies inside a `width x height` grid.
pub open spec fn spec_point_in(width: int, height: int, p: Point) -> bool {
    0 <= p.x < width && 0 <= p.y < height
}

/// The points of a swept set, kept in sweep order, that lie inside the grid.
pub open spec fn spec_clipped(fov: Seq<Point>, width: int, height: int) -> Seq<Point>
    decreases fov.len(),
{
    if fov.len() == 0 {
        Seq::empty()
    } else {
        let rest = spec_clipped(fov.drop_last(), width, height);
        if spec_point_in(width, height, fov.last()) {
            rest.push(fov.last())
        } else {
            rest
        }
    }
}

/// Whether any point of `pts` has row-major index `idx`.
pub open spec fn spec_point_seen(pts: Seq<Point>, width: int, idx: int) -> bool {
    exists|j: int| 0 <= j < pts.len() && (#[trigger] pts[j]).y * width + pts[j].x == idx
}

pub struct VisibilitySystem {}

impl VisibilitySystem {
    /// Apply one entity's freshly swept field of view: store it in the
    /// viewshed clipped to the map bounds (in sweep order) and clear the
    /// dirty flag. If the entity is the player, additionally reset the
    /// shared `visible` overlay and mark every clipped point visible and
    /// revealed. `revealed` never goes back from `true` to `false`, and
    /// after a player pass every visible tile is also revealed.
    pub fn apply_viewshed(
        map: &mut DungeonMap,
        viewshed: &mut Viewshed,
        fov: &Vec<Point>,
        is_player: bool,
    )
        requires
            old(map).wf(),
        ensures
            final(map).wf(),
            final(viewshed).range == old(viewshed).range,
            !final(viewshed).dirty,
            final(viewshed).visible_tiles@ == spec_clipped(
                fov@,
                old(map).width as int,
                old(map).height as int,
            ),
            !is_player ==> *final(map) == *old(map),
            *final(map) == (DungeonMap {
                revealed_tiles: final(map).revealed_tiles,
                visible_tiles: final(map).visible_tiles,
                ..*old(map)
            }),
            is_player ==> forall|i: int|
                0 <= i < old(map).area() ==> final(map).visible_tiles@[i] == spec_point_seen(
                    spec_clipped(fov@, old(map).width as int, old(map).height as int),
                    old(map).width as int,
                    i,
                ),
            is_player ==> forall|i: int|
                0 <= i < old(map).area() ==> final(map).revealed_tiles@[i] == (old(
                    map,
                ).revealed_tiles@[i] || spec_point_seen(
                    spec_clipped(fov@, old(map).width as int, old(map).height as int),
                    old(map).width as int,
                    i,
                )),
            forall|i: int|
                0 <= i < old(map).area() && old(map).revealed_tiles@[i]
                    ==> final(map).revealed_tiles@[i],
            is_player ==> forall|i: int|
                0 <= i < old(map).area() && final(map).visible_tiles@[i]
                    ==> final(map).revealed_tiles@[i],
    {
        let ghost m0 = *old(map);
        let ghost w = old(map).width as int;
        let ghost h = old(map).height as int;
        let mut clipped: Vec<Point> = Vec::new();
        let mut i: usize = 0;
        while i < fov.len()
            invariant
                map.wf(),
                *map == m0,
                w == m0.width as int,
                h == m0.height as int,
                i <= fov@.len(),
                clipped@ == spec_clipped(fov@.take(i as int), w, h),
                forall|j: int|
                    0 <= j < clipped@.len() ==> spec_point_in(w, h, #[trigger] clipped@[j]),
            decreases fov@.len() - i,
        {
            let p = fov[i];
            if map.in_bounds(p) {
                clipped.push(p);
            }
            proof {
                assert(fov@.take(i + 1).drop_last() =~= fov@.take(i as int));
                assert(fov@.take(i + 1).last() == fov@[i as int]);
                assert(clipped@ == spec_clipped(fov@.take(i + 1), w, h));
            }
            i = i + 1;
        }
        proof {
            assert(fov@.take(fov@.len() as int) =~= fov@);
        }
        viewshed.visible_tiles = clipped;
        viewshed.dirty = false;
        if is_player {
            let n = map.visible_tiles.len();
            let mut v: usize = 0;
            while v < n
                invariant
                    map.wf(),
                    v <= n,
                    n == map.area(),
                    *map == (DungeonMap { visible_tiles: map.visible_tiles, ..m0 }),
                    map.visible_tiles@.len() == n,
                    forall|t: int| 0 <= t < v ==> !map.visible_tiles@[t],
                decreases n - v,
            {
                map.visible_tiles[v] = false;
                v = v + 1;
            }
            let ghost pts = viewshed.visible_tiles@;
            let mut j: usize = 0;
            while j < viewshed.visible_tiles.len()
                invariant
                    map.wf(),
                    m0.wf(),
                    j <= pts.len(),
                    pts == viewshed.visible_tiles@,
                    w == map.width as int,
                    h == map.height as int,
                    forall|t: int| 0 <= t < pts.len() ==> spec_point_in(w, h, #[trigger] pts[t]),
                    *map == (DungeonMap {
                        revealed_tiles: map.revealed_tiles,
                        visible_tiles: map.visible_tiles,
                        ..m0
                    }),
                    forall|t: int|
                        0 <= t < map.area() ==> map.visible_tiles@[t] == spec_point_seen(
                            pts.take(j as int),
                            w,
                            t,
                        ),
                    forall|t: int|
                        0 <= t < map.area() ==> map.revealed_tiles@[t] == (m0.revealed_tiles@[t]
                            || spec_point_seen(pts.take(j as int), w, t)),
                    forall|t: int|
                        0 <= t < map.area() && map.visible_tiles@[t]
                            ==> map.revealed_tiles@[t],
                decreases pts.len() - j,
            {
                let p = viewshed.visible_tiles[j];
                let idx = map.point2d_to_index(p);
                let ghost pre_vis = map.visible_tiles@;
                let ghost pre_rev = map.revealed_tiles@;
                map.revealed_tiles[idx] = true;
                map.visible_tiles[idx] = true;
                proof {
                    let prefix = pts.take(j as int);
                    let extended = pts.take(j + 1);
                    assert(extended.drop_last() =~= prefix);
                    assert(extended.last() == pts[j as int]);
                    assert(p == pts[j as int]);
                    assert(idx == p.y * w + p.x);
                    assert forall|t: int|
                        0 <= t < map.area() && t != idx implies spec_point_seen(extended, w, t)
                        == spec_point_seen(prefix, w, t) by {
                        if spec_point_seen(extended, w, t) {
                            let q = choose|q: int|
                                0 <= q < extended.len() && (#[trigger] extended[q]).y * w
                                    + extended[q].x == t;
                            assert(extended[j as int] == p);
                            assert(q != j as int);
                            assert(prefix[q] == extended[q]);
                            assert((#[trigger] prefix[q]).y * w + prefix[q].x == t);
                        }
                        if spec_point_seen(prefix, w, t) {
                            let q = choose|q: int|
                                0 <= q < prefix.len() && (#[trigger] prefix[q]).y * w + prefix[q].x
                                    == t;
                            assert((#[trigger] extended[q]).y * w + extended[q].x == t);
                        }
                    }
                    assert forall|t: int| 0 <= t < map.area() implies map.visible_tiles@[t]
                        == spec_point_seen(extended, w, t) by {
                        if t == idx {
                            assert((#[trigger] extended[j as int]).y * w + extended[j as int].x
                                == t);
                            assert(spec_point_seen(extended, w, t));
                            assert(map.visible_tiles@[t]);
                        } else {
                            assert(map.visible_tiles@[t] == pre_vis[t]);
                        }
                    }
                    assert forall|t: int| 0 <= t < map.area() implies map.revealed_tiles@[t] == (
                    m0.revealed_tiles@[t] || spec_point_seen(extended, w, t)) by {
                        if t == idx {
                            assert((#[trigger] extended[j as int]).y * w + extended[j as int].x
                                == t);
                            assert(spec_point_seen(extended, w, t));
                            assert(map.revealed_tiles@[t]);
                        } else {
                            assert(map.revealed_tiles@[t] == pre_rev[t]);
                        }
                    }
                    assert forall|t: int|
                        0 <= t < map.area() && map.visible_tiles@[t] implies map.revealed_tiles@[t] by {
                        if t == idx {
                            assert(map.revealed_tiles@[t]);
                        } else {
                            assert(map.visible_tiles@[t] == pre_vis[t]);
                            assert(map.revealed_tiles@[t] == pre_rev[t]);
                        }
                    }
                }
                j = j + 1;
            }
            proof {
                assert(j == pts.len());
                assert(pts.take(j as int) =~= pts);
            }
        }
    }
}

} // verus!
