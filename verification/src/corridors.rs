//! Corridor routing: connect pairs of room centers with L-shaped pairs of
//! rectangular segments derived from the canonical bounding rectangle of the
//! two centers.

use vstd::prelude::*;
use crate::config::MapGenConfig;
use crate::geometry::Point;
use crate::geometry::Rect;
use crate::rng::rng_choose_index;
use crate::rng::rng_range;
use crate::rng::rng_shuffle_rects;
use crate::rooms::spec_room_fits;
use crate::rooms::room_fits_in_map;
use crate::rooms::spec_rooms_ok;
use crate::rooms::generate_some_rooms;

verus! {

/// Coordinate caps under which all corridor arithmetic stays in `i32`.
/// Every room the generator accepts satisfies this.
pub open spec fn spec_room_coords_ok(room: Rect) -> bool {
    0 <= room.x1 <= room.x2 <= 100000 && 0 <= room.y1 <= room.y2 <= 100000
}

/// The canonical ordering of two points: the one with the smaller `y` first;
/// on a tie, the one with the smaller `x` first.
pub open spec fn spec_order_points(p1: Point, p2: Point) -> (Point, Point) {
    if p1.y < p2.y {
        (p1, p2)
    } else if p1.y > p2.y {
        (p2, p1)
    } else if p1.x < p2.x {
        (p1, p2)
    } else {
        (p2, p1)
    }
}

pub fn order_points(p1: Point, p2: Point) -> (r: (Point, Point))
    ensures
        r == spec_order_points(p1, p2),
        r.0.y < r.1.y || (r.0.y == r.1.y && r.0.x <= r.1.x),
        (r.0 == p1 && r.1 == p2) || (r.0 == p2 && r.1 == p1),
{
    if p1.y < p2.y {
        (p1, p2)
    } else if p1.y > p2.y {
        (p2, p1)
    } else {
        if p1.x < p2.x {
            (p1, p2)
        } else {
            (p2, p1)
        }
    }
}

/// The bounding rectangle spanned by two canonically ordered points.
pub open spec fn spec_cononical_rect(p1: Point, p2: Point) -> Rect {
    if p1.x > p2.x {
        Rect { x1: p2.x, y1: p1.y, x2: p1.x, y2: p2.y }
    } else {
        Rect { x1: p1.x, y1: p1.y, x2: p2.x, y2: p2.y }
    }
}

pub fn cononical_rect(p1: Point, p2: Point) -> (r: Rect)
    ensures
        r == spec_cononical_rect(p1, p2),
{
    match p1.x > p2.x {
        true => Rect::with_exact(p2.x, p1.y, p1.x, p2.y),
        false => Rect::with_exact(p1.x, p1.y, p2.x, p2.y),
    }
}

/// The four border segments of the canonical rectangle, each expanded
/// outward by the configured corridor thickness: top, right, bottom, left.
pub open spec fn spec_all_edges(p: Rect, m: MapGenConfig) -> Seq<Rect> {
    seq![
        Rect {
            x1: p.x1,
            y1: p.y1,
            x2: (p.x2 + m.corridor_size) as i32,
            y2: (p.y1 + m.corridor_size) as i32,
        },
        Rect {
            x1: p.x2,
            y1: p.y1,
            x2: (p.x2 + m.corridor_size) as i32,
            y2: (p.y2 + m.corridor_size) as i32,
        },
        Rect {
            x1: p.x1,
            y1: p.y2,
            x2: (p.x2 + m.corridor_size) as i32,
            y2: (p.y2 + m.corridor_size) as i32,
        },
        Rect {
            x1: p.x1,
            y1: p.y1,
            x2: (p.x1 + m.corridor_size) as i32,
            y2: (p.y2 + m.corridor_size) as i32,
        },
    ]
}

pub fn all_edges(paths: &Rect, mpg: &MapGenConfig) -> (r: Vec<Rect>)
    requires
        mpg.wf(),
        0 <= paths.x1 <= paths.x2 <= 150000,
        0 <= paths.y1 <= paths.y2 <= 150000,
    ensures
        r@ == spec_all_edges(*paths, *mpg),
{
    let cs = mpg.corridor_size;
    let w = paths.x2 - paths.x1;
    let h = paths.y2 - paths.y1;
    let e0 = Rect::with_size(paths.x1, paths.y1, w + cs, cs);
    let e1 = Rect::with_size(paths.x2, paths.y1, cs, h + cs);
    let e2 = Rect::with_size(paths.x1, paths.y2, w + cs, cs);
    let e3 = Rect::with_size(paths.x1, paths.y1, cs, h + cs);
    let mut r: Vec<Rect> = Vec::new();
    r.push(e0);
    r.push(e1);
    r.push(e2);
    r.push(e3);
    proof {
        assert(r@ =~= spec_all_edges(*paths, *mpg));
    }
    r
}

/// The two candidate paths when the first ordered point lies left of (or
/// above) the second: top-then-right, or left-then-bottom.
pub fn fw_paths(path_vec: Vec<Rect>) -> (r: Vec<Vec<Rect>>)
    requires
        path_vec@.len() == 4,
    ensures
        r@.len() == 2,
        r@[0]@ == seq![path_vec@[0], path_vec@[1]],
        r@[1]@ == seq![path_vec@[3], path_vec@[2]],
{
    let mut a: Vec<Rect> = Vec::new();
    a.push(path_vec[0]);
    a.push(path_vec[1]);
    let mut b: Vec<Rect> = Vec::new();
    b.push(path_vec[3]);
    b.push(path_vec[2]);
    let mut r: Vec<Vec<Rect>> = Vec::new();
    r.push(a);
    r.push(b);
    proof {
        assert(r@[0]@ =~= seq![path_vec@[0], path_vec@[1]]);
        assert(r@[1]@ =~= seq![path_vec@[3], path_vec@[2]]);
    }
    r
}

/// The two candidate paths when the first ordered point lies right of the
/// second: right-then-bottom, or top-then-left.
pub fn bw_paths(path_vec: Vec<Rect>) -> (r: Vec<Vec<Rect>>)
    requires
        path_vec@.len() == 4,
    ensures
        r@.len() == 2,
        r@[0]@ == seq![path_vec@[1], path_vec@[2]],
        r@[1]@ == seq![path_vec@[0], path_vec@[3]],
{
    let mut a: Vec<Rect> = Vec::new();
    a.push(path_vec[1]);
    a.push(path_vec[2]);
    let mut b: Vec<Rect> = Vec::new();
    b.push(path_vec[0]);
    b.push(path_vec[3]);
    let mut r: Vec<Vec<Rect>> = Vec::new();
    r.push(a);
    r.push(b);
    proof {
        assert(r@[0]@ =~= seq![path_vec@[1], path_vec@[2]]);
        assert(r@[1]@ =~= seq![path_vec@[0], path_vec@[3]]);
    }
    r
}

/// Whether every segment of a candidate path fits inside the map bounds.
pub open spec fn spec_path_fits(path: Seq<Rect>, m: MapGenConfig) -> bool {
    forall|i: int| 0 <= i < path.len() ==> spec_room_fits(#[trigger] path[i], m)
}

fn path_fits(path: &Vec<Rect>, mpg: &MapGenConfig) -> (r: bool)
    ensures
        r == spec_path_fits(path@, *mpg),
{
    let mut i: usize = 0;
    while i < path.len()
        invariant
            i <= path@.len(),
            forall|j: int| 0 <= j < i ==> spec_room_fits(#[trigger] path@[j], *mpg),
        decreases path@.len() - i,
    {
        let seg = path[i];
        if !room_fits_in_map(&seg, mpg) {
            return false;
        }
        i = i + 1;
    }
    true
}

pub(crate) fn copy_rects(v: &Vec<Rect>) -> (r: Vec<Rect>)
    ensures
        r@ == v@,
{
    let mut r: Vec<Rect> = Vec::new();
    let mut i: usize = 0;
    while i < v.len()
        invariant
            i <= v@.len(),
            r@ == v@.take(i as int),
        decreases v@.len() - i,
    {
        r.push(v[i]);
        proof {
            assert(r@ =~= v@.take(i + 1));
        }
        i = i + 1;
    }
    proof {
        assert(r@ =~= v@);
    }
    r
}

/// The two candidate corridor paths for a pair of rooms, derived from the
/// canonically ordered centers; the direction of the ordered pair decides
/// which diagonal of the bounding rectangle the candidates hug.
pub open spec fn spec_corridor_candidates(r1: Rect, r2: Rect, m: MapGenConfig) -> (
    Seq<Rect>,
    Seq<Rect>,
) {
    let pp = spec_order_points(r1.spec_center(), r2.spec_center());
    let paths = spec_cononical_rect(pp.0, pp.1);
    let e = spec_all_edges(paths, m);
    if pp.0.x > pp.1.x {
        (seq![e[1], e[2]], seq![e[0], e[3]])
    } else {
        (seq![e[0], e[1]], seq![e[3], e[2]])
    }
}

/// Route one corridor between two rooms: build the two candidate L-shaped
/// paths, keep those whose segments all fit the map bounds, and pick one of
/// the keepers at random. An empty result means neither candidate fits; a
/// result of two segments is one full candidate path.
pub fn connect_two_rooms(
    mpg: &MapGenConfig,
    rng: &mut rltk::RandomNumberGenerator,
    room1: &Rect,
    room2: &Rect,
) -> (r: Vec<Rect>)
    requires
        mpg.wf(),
        spec_room_coords_ok(*room1),
        spec_room_coords_ok(*room2),
    ensures
        r@.len() == 0 || r@.len() == 2,
        forall|i: int| 0 <= i < r@.len() ==> spec_room_fits(#[trigger] r@[i], *mpg),
        ({
            let cands = spec_corridor_candidates(*room1, *room2, *mpg);
            &&& (r@.len() == 2) <==> (spec_path_fits(cands.0, *mpg) || spec_path_fits(
                cands.1,
                *mpg,
            ))
            &&& r@.len() == 2 ==> (r@ == cands.0 && spec_path_fits(cands.0, *mpg)) || (r@
                == cands.1 && spec_path_fits(cands.1, *mpg))
        }),
{
    let c1 = room1.center();
    let c2 = room2.center();
    let (p1, p2) = order_points(c1, c2);
    let paths = cononical_rect(p1, p2);
    let edges = all_edges(&paths, mpg);
    let cand = match p1.x > p2.x {
        true => bw_paths(edges),
        false => fw_paths(edges),
    };
    let ghost cands = spec_corridor_candidates(*room1, *room2, *mpg);
    proof {
        assert(cand@[0]@ == cands.0);
        assert(cand@[1]@ == cands.1);
    }
    let fits0 = path_fits(&cand[0], mpg);
    let fits1 = path_fits(&cand[1], mpg);
    let mut fitting: Vec<usize> = Vec::new();
    if fits0 {
        fitting.push(0);
    }
    if fits1 {
        fitting.push(1);
    }
    match rng_choose_index(rng, fitting.len()) {
        Some(k) => {
            let idx = fitting[k];
            copy_rects(&cand[idx])
        },
        None => Vec::new(),
    }
}

/// Whether `seg` is a segment of one of the two candidate paths between the
/// centers of `origin` and `target`.
pub open spec fn spec_candidate_segment(
    origin: Rect,
    target: Rect,
    m: MapGenConfig,
    seg: Rect,
) -> bool {
    let cands = spec_corridor_candidates(origin, target, m);
    cands.0.contains(seg) || cands.1.contains(seg)
}

/// Whether `seg` is a candidate segment between `origin` and some room of
/// the list other than `origin` itself.
pub open spec fn spec_seg_from_some_room(
    origin: Rect,
    rooms: Seq<Rect>,
    m: MapGenConfig,
    seg: Rect,
) -> bool {
    exists|t: int|
        0 <= t < rooms.len() && rooms[t] != origin && spec_candidate_segment(
            origin,
            #[trigger] rooms[t],
            m,
            seg,
        )
}

/// Whether `seg` is a candidate segment between some pair of rooms of the
/// list.
pub open spec fn spec_seg_from_room_pair(rooms: Seq<Rect>, m: MapGenConfig, seg: Rect) -> bool {
    exists|a: int|
        0 <= a < rooms.len() && spec_seg_from_some_room(#[trigger] rooms[a], rooms, m, seg)
}

/// Whether at least one of the two candidate paths between the centers of
/// `origin` and `target` fits the map bounds.
pub open spec fn spec_pair_routable(origin: Rect, target: Rect, m: MapGenConfig) -> bool {
    spec_path_fits(spec_corridor_candidates(origin, target, m).0, m) || spec_path_fits(
        spec_corridor_candidates(origin, target, m).1,
        m,
    )
}

/// Whether every room of the list other than `origin` itself can be routed
/// to from `origin`.
pub open spec fn spec_all_pairs_routable(origin: Rect, rooms: Seq<Rect>, m: MapGenConfig) -> bool {
    forall|t: int|
        0 <= t < rooms.len() && rooms[t] != origin ==> spec_pair_routable(
            origin,
            #[trigger] rooms[t],
            m,
        )
}

/// Route corridors from `origin` to a randomly drawn number (in
/// `[1, room_max_connections]`) of distinct target rooms, visiting the
/// rooms in shuffled order. Every returned rectangle fits the map bounds
/// and is a candidate segment toward one of the other rooms; at most two
/// segments per allowed connection come back, and when another room exists
/// and every other room is routable, at least one whole path does.
pub fn connect_some_rooms(
    mgc: &MapGenConfig,
    rng: &mut rltk::RandomNumberGenerator,
    origin: &Rect,
    rooms: &Vec<Rect>,
) -> (r: Vec<Rect>)
    requires
        mgc.wf(),
        spec_room_coords_ok(*origin),
        forall|i: int| 0 <= i < rooms@.len() ==> spec_room_coords_ok(#[trigger] rooms@[i]),
    ensures
        forall|i: int| 0 <= i < r@.len() ==> spec_room_fits(#[trigger] r@[i], *mgc),
        forall|i: int|
            0 <= i < r@.len() ==> spec_seg_from_some_room(*origin, rooms@, *mgc, #[trigger] r@[i]),
        r@.len() <= 2 * mgc.room_max_connections,
        ((exists|t: int| 0 <= t < rooms@.len() && (#[trigger] rooms@[t]) != *origin)
            && spec_all_pairs_routable(*origin, rooms@, *mgc)) ==> r@.len() >= 2,
{
    let connects_raw = rng_range(rng, 1, mgc.room_max_connections as i32 + 1);
    let connects = connects_raw as usize;
    let mut shuffled = copy_rects(rooms);
    rng_shuffle_rects(rng, &mut shuffled);
    proof {
        broadcast use vstd::seq_lib::group_to_multiset_ensures;

        assert forall|i: int|
            0 <= i < shuffled@.len() implies spec_room_coords_ok(#[trigger] shuffled@[i])
            && rooms@.contains(shuffled@[i]) by {
            assert(shuffled@.contains(shuffled@[i]));
            assert(shuffled@.to_multiset().count(shuffled@[i]) > 0);
            assert(rooms@.contains(shuffled@[i]));
        }
    }
    let mut result: Vec<Rect> = Vec::new();
    let mut taken: usize = 0;
    let mut i: usize = 0;
    while i < shuffled.len() && taken < connects
        invariant
            mgc.wf(),
            i <= shuffled@.len(),
            1 <= connects <= mgc.room_max_connections,
            taken <= connects,
            spec_room_coords_ok(*origin),
            forall|j: int| 0 <= j < shuffled@.len() ==> spec_room_coords_ok(#[trigger] shuffled@[j]),
            forall|j: int| 0 <= j < shuffled@.len() ==> rooms@.contains(#[trigger] shuffled@[j]),
            forall|j: int| 0 <= j < result@.len() ==> spec_room_fits(#[trigger] result@[j], *mgc),
            forall|j: int|
                0 <= j < result@.len() ==> spec_seg_from_some_room(
                    *origin,
                    rooms@,
                    *mgc,
                    #[trigger] result@[j],
                ),
            result@.len() <= 2 * taken,
            taken == 0 ==> result@.len() == 0 && (forall|j: int|
                0 <= j < i ==> #[trigger] shuffled@[j] == *origin),
            spec_all_pairs_routable(*origin, rooms@, *mgc) && taken >= 1 ==> result@.len() >= 2,
        decreases shuffled@.len() - i,
    {
        let target = shuffled[i];
        if !(target == *origin) {
            taken = taken + 1;
            let ghost rlen0 = result@.len();
            let segs = connect_two_rooms(mgc, rng, origin, &target);
            proof {
                let cands = spec_corridor_candidates(*origin, target, *mgc);
                assert forall|q: int| 0 <= q < segs@.len() implies spec_candidate_segment(
                    *origin,
                    target,
                    *mgc,
                    #[trigger] segs@[q],
                ) by {
                    if segs@ == cands.0 {
                        assert(cands.0[q] == segs@[q]);
                        assert(cands.0.contains(segs@[q]));
                    } else {
                        assert(segs@ == cands.1);
                        assert(cands.1[q] == segs@[q]);
                        assert(cands.1.contains(segs@[q]));
                    }
                }
            }
            let mut s: usize = 0;
            while s < segs.len()
                invariant
                    mgc.wf(),
                    s <= segs@.len(),
                    target != *origin,
                    rooms@.contains(target),
                    result@.len() == rlen0 + s,
                    forall|j: int|
                        0 <= j < segs@.len() ==> spec_room_fits(#[trigger] segs@[j], *mgc),
                    forall|j: int|
                        0 <= j < segs@.len() ==> spec_candidate_segment(
                            *origin,
                            target,
                            *mgc,
                            #[trigger] segs@[j],
                        ),
                    forall|j: int|
                        0 <= j < result@.len() ==> spec_room_fits(#[trigger] result@[j], *mgc),
                    forall|j: int|
                        0 <= j < result@.len() ==> spec_seg_from_some_room(
                            *origin,
                            rooms@,
                            *mgc,
                            #[trigger] result@[j],
                        ),
                decreases segs@.len() - s,
            {
                let seg = segs[s];
                if room_fits_in_map(&seg, mgc) {
                    proof {
                        let t = choose|t: int| 0 <= t < rooms@.len() && rooms@[t] == target;
                        assert(rooms@[t] != *origin && spec_candidate_segment(
                            *origin,
                            rooms@[t],
                            *mgc,
                            seg,
                        ));
                        assert(spec_seg_from_some_room(*origin, rooms@, *mgc, seg));
                    }
                    result.push(seg);
                }
                s = s + 1;
            }
            proof {
                if spec_all_pairs_routable(*origin, rooms@, *mgc) {
                    let t = choose|t: int| 0 <= t < rooms@.len() && rooms@[t] == target;
                    assert(spec_pair_routable(*origin, rooms@[t], *mgc));
                    assert(segs@.len() == 2);
                }
            }
        }
        i = i + 1;
    }
    proof {
        if (exists|t: int| 0 <= t < rooms@.len() && (#[trigger] rooms@[t]) != *origin)
            && spec_all_pairs_routable(*origin, rooms@, *mgc) {
            if taken == 0 {
                broadcast use vstd::seq_lib::group_to_multiset_ensures;

                let t = choose|t: int| 0 <= t < rooms@.len() && rooms@[t] != *origin;
                assert(rooms@.contains(rooms@[t]));
                assert(shuffled@.to_multiset().count(rooms@[t]) > 0);
                assert(shuffled@.contains(rooms@[t]));
                let j = choose|j: int| 0 <= j < shuffled@.len() && shuffled@[j] == rooms@[t];
                assert(i == shuffled@.len());
                assert(shuffled@[j] == *origin);
                assert(false);
            }
            assert(result@.len() >= 2);
        }
    }
    result
}

/// Generate a full level layout: the accepted rooms and, for each room, the
/// corridors that connect it to a random selection of other rooms. `None`
/// when room placement exhausts its attempt budget.
pub fn generate_rooms_and_corridors(
    mgc: &MapGenConfig,
    rng: &mut rltk::RandomNumberGenerator,
) -> (r: Option<(Vec<Rect>, Vec<Rect>)>)
    requires
        mgc.wf(),
    ensures
        r is Some ==> (r->0).0@.len() == mgc.num_rooms,
        r is Some ==> spec_rooms_ok((r->0).0@, *mgc),
        r is Some ==> forall|i: int|
            0 <= i < (r->0).1@.len() ==> spec_room_fits(#[trigger] (r->0).1@[i], *mgc),
        r is Some ==> forall|i: int|
            0 <= i < (r->0).1@.len() ==> spec_seg_from_room_pair(
                (r->0).0@,
                *mgc,
                #[trigger] (r->0).1@[i],
            ),
        r is Some ==> (r->0).1@.len() <= 2 * mgc.room_max_connections * mgc.num_rooms,
        mgc.num_rooms == 0 ==> r is Some,
{
    let rooms_opt = generate_some_rooms(rng, mgc);
    match rooms_opt {
        None => None,
        Some(rooms) => {
            proof {
                assert forall|i: int|
                    0 <= i < rooms@.len() implies spec_room_coords_ok(#[trigger] rooms@[i]) by {
                    assert(crate::rooms::spec_room_sampled(rooms@[i], *mgc));
                }
            }
            let mut corridors: Vec<Rect> = Vec::new();
            let mut i: usize = 0;
            while i < rooms.len()
                invariant
                    mgc.wf(),
                    i <= rooms@.len(),
                    spec_rooms_ok(rooms@, *mgc),
                    forall|j: int|
                        0 <= j < rooms@.len() ==> spec_room_coords_ok(#[trigger] rooms@[j]),
                    forall|j: int|
                        0 <= j < corridors@.len() ==> spec_room_fits(#[trigger] corridors@[j], *mgc),
                    forall|j: int|
                        0 <= j < corridors@.len() ==> spec_seg_from_room_pair(
                            rooms@,
                            *mgc,
                            #[trigger] corridors@[j],
                        ),
                    corridors@.len() <= 2 * mgc.room_max_connections * i,
                decreases rooms@.len() - i,
            {
                let room = rooms[i];
                let ghost pre = corridors@;
                let mut segs = connect_some_rooms(mgc, rng, &room, &rooms);
                let ghost segs_view = segs@;
                corridors.append(&mut segs);
                proof {
                    assert forall|j: int|
                        0 <= j < corridors@.len() implies spec_seg_from_room_pair(
                        rooms@,
                        *mgc,
                        #[trigger] corridors@[j],
                    ) by {
                        if j < pre.len() {
                            assert(corridors@[j] == pre[j]);
                        } else {
                            assert(corridors@[j] == segs_view[j - pre.len()]);
                            assert(spec_seg_from_some_room(
                                rooms@[i as int],
                                rooms@,
                                *mgc,
                                corridors@[j],
                            ));
                        }
                    }
                    assert(corridors@.len() <= 2 * mgc.room_max_connections * (i + 1)) by (nonlinear_arith)
                        requires
                            corridors@.len() == pre.len() + segs_view.len(),
                            pre.len() <= 2 * mgc.room_max_connections * i,
                            segs_view.len() <= 2 * mgc.room_max_connections,
                    ;
                }
                i = i + 1;
            }
            Some((rooms, corridors))
        },
    }
}

} // verus!
