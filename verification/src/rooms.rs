//! Room layout generation: sample candidate rectangles inside the configured
//! bounds and accept those that do not intersect any room accepted so far.

use vstd::prelude::*;
use crate::config::MapGenConfig;
use crate::geometry::Rect;
use crate::rng::rng_range;

verus! {

/// The acceptance test on a room's position: fully inside the configured
/// placement box `[min_room_x, max_room_x] x [min_room_y, max_room_y]`.
pub open spec fn spec_room_fits(room: Rect, mgc: MapGenConfig) -> bool {
    mgc.min_room_x <= room.x1 && room.x2 < mgc.max_room_x && mgc.min_room_y <= room.y1 && room.y2
        < mgc.max_room_y
}

/// What sampling guarantees of every candidate: corner inside the configured
/// minima, far corner inside the maxima, both dimensions in their sampled
/// ranges.
pub open spec fn spec_room_sampled(room: Rect, mgc: MapGenConfig) -> bool {
    &&& mgc.min_room_x <= room.x1
    &&& mgc.min_room_y <= room.y1
    &&& room.x2 < mgc.max_room_x
    &&& room.y2 < mgc.max_room_y
    &&& mgc.min_room_width <= room.spec_width() < mgc.max_room_width
    &&& mgc.min_room_height <= room.spec_height() < mgc.max_room_height
}

/// Draw one candidate room: width and height uniform in their configured
/// ranges, then a position that keeps the whole rectangle inside the bounds.
pub fn build_room_rect(rng: &mut rltk::RandomNumberGenerator, mgc: &MapGenConfig) -> (r: Rect)
    requires
        mgc.wf(),
    ensures
        spec_room_sampled(r, *mgc),
{
    let w = rng_range(rng, mgc.min_room_width, mgc.max_room_width);
    let h = rng_range(rng, mgc.min_room_height, mgc.max_room_height);
    let x = rng_range(rng, mgc.min_room_x, mgc.max_room_x - w);
    let y = rng_range(rng, mgc.min_room_y, mgc.max_room_y - h);
    Rect::with_size(x, y, w, h)
}

pub fn room_fits_in_map(room: &Rect, mgc: &MapGenConfig) -> (r: bool)
    ensures
        r == spec_room_fits(*room, *mgc),
{
    room.x1 >= mgc.min_room_x && room.x2 < mgc.max_room_x && room.y1 >= mgc.min_room_y
        && room.y2 < mgc.max_room_y
}

/// Whether `room` intersects no rectangle of `rooms` other than itself.
pub open spec fn spec_no_overlap(room: Rect, rooms: Seq<Rect>) -> bool {
    forall|i: int| 0 <= i < rooms.len() && rooms[i] != room ==> !room.spec_intersect(rooms[i])
}

pub fn room_does_not_overlap(room: &Rect, rooms: &Vec<Rect>) -> (r: bool)
    ensures
        r == spec_no_overlap(*room, rooms@),
{
    let mut i: usize = 0;
    while i < rooms.len()
        invariant
            i <= rooms@.len(),
            forall|j: int| 0 <= j < i && rooms@[j] != *room ==> !room.spec_intersect(rooms@[j]),
        decreases rooms@.len() - i,
    {
        let other = rooms[i];
        if !(*room == other) {
            if room.intersect(&other) {
                return false;
            }
        }
        i = i + 1;
    }
    true
}

pub fn room_works(room: &Rect, mgc: &MapGenConfig, rooms: &Vec<Rect>) -> (r: bool)
    ensures
        r == (spec_room_fits(*room, *mgc) && spec_no_overlap(*room, rooms@)),
{
    room_fits_in_map(room, mgc) && room_does_not_overlap(room, rooms)
}

fn rooms_contains(rooms: &Vec<Rect>, room: &Rect) -> (r: bool)
    ensures
        r == rooms@.contains(*room),
{
    let mut i: usize = 0;
    while i < rooms.len()
        invariant
            i <= rooms@.len(),
            forall|j: int| 0 <= j < i ==> rooms@[j] != *room,
        decreases rooms@.len() - i,
    {
        if rooms[i] == *room {
            assert(rooms@.contains(*room));
            return true;
        }
        i = i + 1;
    }
    assert(!rooms@.contains(*room));
    false
}

/// What holds of every accepted room list: each room sampled and strictly
/// inside the bounds, and no two rooms intersecting.
pub open spec fn spec_rooms_ok(rooms: Seq<Rect>, mgc: MapGenConfig) -> bool {
    &&& forall|i: int|
        0 <= i < rooms.len() ==> spec_room_sampled(#[trigger] rooms[i], mgc) && spec_room_fits(
            rooms[i],
            mgc,
        )
    &&& forall|i: int, j: int|
        0 <= i < j < rooms.len() ==> !(#[trigger] rooms[i]).spec_intersect(#[trigger] rooms[j])
}

/// Sample and accept rooms until `num_rooms` have been placed, rejecting any
/// candidate that leaves the bounds or touches an accepted room. Placement
/// retries are bounded; an infeasible configuration yields `None` once the
/// attempt budget is exhausted instead of looping forever.
pub fn generate_some_rooms(rng: &mut rltk::RandomNumberGenerator, mgc: &MapGenConfig) -> (r:
    Option<Vec<Rect>>)
    requires
        mgc.wf(),
    ensures
        r is Some ==> r->0@.len() == mgc.num_rooms,
        r is Some ==> spec_rooms_ok(r->0@, *mgc),
        mgc.num_rooms == 0 ==> r is Some,
{
    let mut rooms: Vec<Rect> = Vec::new();
    let budget: usize = mgc.num_rooms * 1000 + 1000;
    let mut attempts: usize = 0;
    while rooms.len() < mgc.num_rooms && attempts < budget
        invariant
            mgc.wf(),
            budget == mgc.num_rooms * 1000 + 1000,
            attempts <= budget,
            rooms@.len() <= mgc.num_rooms,
            spec_rooms_ok(rooms@, *mgc),
        decreases budget - attempts,
    {
        attempts = attempts + 1;
        let new_room = build_room_rect(rng, mgc);
        if room_works(&new_room, mgc, &rooms) && !rooms_contains(&rooms, &new_room) {
            proof {
                assert(forall|i: int|
                    0 <= i < rooms@.len() ==> !new_room.spec_intersect(#[trigger] rooms@[i]));
            }
            rooms.push(new_room);
        }
    }
    if rooms.len() == mgc.num_rooms {
        Some(rooms)
    } else {
        None
    }
}

} // verus!
