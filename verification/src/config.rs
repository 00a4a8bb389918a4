//! Generation parameters for one dungeon level.

use vstd::prelude::*;

verus! {

/// Bounds and counts that drive room placement and corridor routing.
///
/// Rooms are sampled with widths in `[min_room_width, max_room_width)` and
/// heights in `[min_room_height, max_room_height)`, and must lie inside
/// `[min_room_x, max_room_x] x [min_room_y, max_room_y]`.
#[derive(Clone, Copy, Debug, PartialEq, Eq, Structural)]
pub struct MapGenConfig {
    pub max_room_width: i32,
    pub max_room_height: i32,
    pub min_room_width: i32,
    pub min_room_height: i32,
    pub min_room_x: i32,
    pub min_room_y: i32,
    pub max_room_x: i32,
    pub max_room_y: i32,
    pub num_rooms: usize,
    pub corridor_size: i32,
    pub room_max_connections: usize,
}

impl MapGenConfig {
    /// A feasible configuration: nonempty sampling ranges that always admit a
    /// candidate, and coordinate caps that keep every derived coordinate
    /// (centers, corridor edges expanded by `corridor_size`) comfortably
    /// clear of `i32` overflow.
    pub open spec fn wf(self) -> bool {
        &&& 1 <= self.min_room_width < self.max_room_width
        &&& 1 <= self.min_room_height < self.max_room_height
        &&& 0 <= self.min_room_x
        &&& 0 <= self.min_room_y
        &&& self.min_room_x + self.max_room_width <= self.max_room_x
        &&& self.min_room_y + self.max_room_height <= self.max_room_y
        &&& self.max_room_x <= 100000
        &&& self.max_room_y <= 100000
        &&& 1 <= self.corridor_size <= 1000
        &&& 1 <= self.room_max_connections <= 1000
        &&& self.num_rooms <= 10000
    }

    pub fn is_wf(&self) -> (r: bool)
        ensures
            r == self.wf(),
    {
        1 <= self.min_room_width && self.min_room_width < self.max_room_width
            && 1 <= self.min_room_height && self.min_room_height < self.max_room_height
            && 0 <= self.min_room_x && 0 <= self.min_room_y
            && (self.min_room_x as i64) + (self.max_room_width as i64) <= (self.max_room_x as i64)
            && (self.min_room_y as i64) + (self.max_room_height as i64) <= (self.max_room_y as i64)
            && self.max_room_x <= 100000 && self.max_room_y <= 100000
            && 1 <= self.corridor_size && self.corridor_size <= 1000
            && 1 <= self.room_max_connections && self.room_max_connections <= 1000
            && self.num_rooms <= 10000
    }
}

/// The stock configuration for an 80-column screen.
pub fn default_map_config() -> (r: MapGenConfig)
    ensures
        r.wf(),
        r == (MapGenConfig {
            max_room_width: 10,
            max_room_height: 10,
            min_room_width: 6,
            min_room_height: 6,
            min_room_x: 1,
            min_room_y: 1,
            max_room_x: 78,
            max_room_y: 48,
            num_rooms: 10,
            corridor_size: 3,
            room_max_connections: 2,
        }),
{
    MapGenConfig {
        max_room_width: 10,
        max_room_height: 10,
        min_room_width: 6,
        min_room_height: 6,
        min_room_x: 1,
        min_room_y: 1,
        max_room_x: 78,
        max_room_y: 48,
        num_rooms: 10,
        corridor_size: 3,
        room_max_connections: 2,
    }
}

} // verus!
