//! The tile grid: tile classification, the per-level `DungeonMap` with its overlays,
//! and the coordinate/index model shared by rasterization, indexing,
//! visibility and pathfinding.

use vstd::prelude::*;
use vstd::arithmetic::div_mod::lemma_fundamental_div_mod;
use vstd::arithmetic::div_mod::lemma_div_pos_is_pos;
use crate::geometry::Point;
use crate::geometry::Rect;

verus! {

/// What one grid cell holds.
#[derive(Clone, Copy, Debug, PartialEq, Eq, Structural)]
pub enum TileType {
    Wall,
    CorWall,
    Floor,
    Empty,
}

impl TileType {
    /// Whether terrain of this type disallows entry on its own.
    pub open spec fn spec_is_blocker(self) -> bool {
        self is Wall || self is CorWall
    }

    pub fn is_blocker(&self) -> (r: bool)
        ensures
            r == self.spec_is_blocker(),
    {
        match self {
            TileType::Wall => true,
            TileType::CorWall => true,
            _ => false,
        }
    }
}

/// The level grid together with its per-turn overlays.
///
/// `tiles` is row-major: the cell `(x, y)` lives at index `y * width + x`.
/// `revealed_tiles` only ever goes `false -> true` within a level's life;
/// `visible_tiles`, `blocked` and `tile_content` are fully recomputed by
/// their passes each turn.
#[derive(Clone, Debug)]
pub struct DungeonMap {
    pub tiles: Vec<TileType>,
    pub width: i32,
    pub height: i32,
    pub rooms: Vec<Rect>,
    pub revealed_tiles: Vec<bool>,
    pub visible_tiles: Vec<bool>,
    pub blocked: Vec<bool>,
    pub tile_content: Vec<Vec<u64>>,
    pub depth: i32,
}

impl DungeonMap {
    /// The number of cells in the grid.
    pub open spec fn area(self) -> int {
        self.width * self.height
    }

    /// Well-formedness: positive dimensions, an index space that fits in the
    /// machine, and every per-tile array exactly as long as the grid.
    pub open spec fn wf(self) -> bool {
        &&& 1 <= self.width
        &&& 1 <= self.height
        &&& self.width * self.height <= i32::MAX
        &&& self.tiles@.len() == self.area()
        &&& self.revealed_tiles@.len() == self.area()
        &&& self.visible_tiles@.len() == self.area()
        &&& self.blocked@.len() == self.area()
        &&& self.tile_content@.len() == self.area()
    }

    /// The row-major cell index of `(x, y)`.
    pub open spec fn spec_idx(self, x: int, y: int) -> int {
        y * self.width + x
    }

    pub open spec fn spec_in_bounds(self, p: Point) -> bool {
        0 <= p.x < self.width && 0 <= p.y < self.height
    }

    pub fn dimensions(&self) -> (r: Point)
        ensures
            r.x == self.width,
            r.y == self.height,
    {
        Point { x: self.width, y: self.height }
    }

    pub fn in_bounds(&self, pos: Point) -> (r: bool)
        ensures
            r == self.spec_in_bounds(pos),
    {
        pos.x >= 0 && pos.x < self.width && pos.y >= 0 && pos.y < self.height
    }

    proof fn lemma_idx_in_range(self, x: int, y: int)
        requires
            self.wf(),
            0 <= x < self.width,
            0 <= y < self.height,
        ensures
            0 <= self.spec_idx(x, y) < self.area(),
    {
        assert(y * self.width <= (self.height - 1) * self.width) by (nonlinear_arith)
            requires
                y <= self.height - 1,
                self.width >= 1,
        ;
        assert((self.height - 1) * self.width + self.width == self.height * self.width) by (nonlinear_arith);
        assert(y * self.width >= 0) by (nonlinear_arith)
            requires
                y >= 0,
                self.width >= 1,
        ;
    }

    /// Callers must guarantee `pos` is in bounds; out-of-range coordinates
    /// are a precondition violation, not clamped.
    pub fn point2d_to_index(&self, pos: Point) -> (r: usize)
        requires
            self.wf(),
            self.spec_in_bounds(pos),
        ensures
            r == self.spec_idx(pos.x as int, pos.y as int),
            r < self.area(),
    {
        proof {
            self.lemma_idx_in_range(pos.x as int, pos.y as int);
        }
        (pos.y * self.width + pos.x) as usize
    }

    pub fn index_to_point2d(&self, idx: usize) -> (r: Point)
        requires
            self.wf(),
            idx < self.area(),
        ensures
            r.x == idx as int % self.width as int,
            r.y == idx as int / self.width as int,
            self.spec_in_bounds(r),
            self.spec_idx(r.x as int, r.y as int) == idx,
    {
        let w = self.width as usize;
        let x = idx % w;
        let y = idx / w;
        proof {
            lemma_fundamental_div_mod(idx as int, w as int);
            lemma_div_pos_is_pos(idx as int, w as int);
            assert(((idx as int) / (w as int)) < self.height as int) by (nonlinear_arith)
                requires
                    w as int == self.width as int,
                    (idx as int) < (self.width as int) * (self.height as int),
                    self.width as int >= 1,
                    self.height as int >= 1,
                    idx as int == (w as int) * ((idx as int) / (w as int)) + ((idx as int) % (
                    w as int)),
                    0 <= ((idx as int) % (w as int)),
                    ((idx as int) % (w as int)) < (w as int),
            ;
            assert(((idx as int) / (w as int)) * (w as int) + ((idx as int) % (w as int))
                == idx as int) by (nonlinear_arith)
                requires
                    idx as int == (w as int) * ((idx as int) / (w as int)) + ((idx as int) % (
                    w as int)),
            ;
        }
        Point { x: x as i32, y: y as i32 }
    }

    /// A tile blocks sight iff it is a room wall.
    pub open spec fn spec_is_opaque(self, idx: int) -> bool {
        self.tiles@[idx] is Wall
    }

    pub fn is_opaque(&self, idx: usize) -> (r: bool)
        requires
            self.wf(),
            idx < self.area(),
        ensures
            r == self.spec_is_opaque(idx as int),
    {
        self.tiles[idx] == TileType::Wall
    }

    /// Reset `blocked` from the terrain alone: a cell starts a rebuild
    /// blocked iff its tile type is a blocker.
    pub fn populate_blocked(&mut self)
        requires
            old(self).wf(),
        ensures
            final(self).wf(),
            *final(self) == (DungeonMap { blocked: final(self).blocked, ..*old(self) }),
            final(self).blocked@.len() == old(self).area(),
            forall|i: int|
                0 <= i < final(self).blocked@.len() ==> final(self).blocked@[i]
                    == old(self).tiles@[i].spec_is_blocker(),
    {
        let n = self.tiles.len();
        let mut i: usize = 0;
        while i < n
            invariant
                self.wf(),
                n == self.area(),
                i <= n,
                *self == (DungeonMap { blocked: self.blocked, ..*old(self) }),
                self.blocked@.len() == n,
                forall|j: int| 0 <= j < i ==> self.blocked@[j] == old(self).tiles@[j].spec_is_blocker(),
            decreases n - i,
        {
            let b = self.tiles[i].is_blocker();
            self.blocked[i] = b;
            i = i + 1;
        }
    }

    /// Empty every per-tile occupant list, dropping all data from the
    /// previous turn.
    pub fn clear_content_index(&mut self)
        requires
            old(self).wf(),
        ensures
            final(self).wf(),
            *final(self) == (DungeonMap { tile_content: final(self).tile_content, ..*old(self) }),
            final(self).tile_content@.len() == old(self).area(),
            forall|i: int|
                0 <= i < final(self).tile_content@.len() ==> final(self).tile_content@[i]@
                    == Seq::<u64>::empty(),
    {
        let n = self.tile_content.len();
        let mut i: usize = 0;
        while i < n
            invariant
                self.wf(),
                n == self.area(),
                i <= n,
                *self == (DungeonMap { tile_content: self.tile_content, ..*old(self) }),
                self.tile_content@.len() == n,
                forall|j: int| 0 <= j < i ==> self.tile_content@[j]@ == Seq::<u64>::empty(),
            decreases n - i,
        {
            self.tile_content[i] = Vec::new();
            i = i + 1;
        }
    }

    /// Mark the whole grid revealed.
    pub fn reveal_map(&mut self)
        requires
            old(self).wf(),
        ensures
            final(self).wf(),
            *final(self) == (DungeonMap { revealed_tiles: final(self).revealed_tiles, ..*old(self) }),
            final(self).revealed_tiles@.len() == old(self).area(),
            forall|i: int|
                0 <= i < final(self).revealed_tiles@.len() ==> final(self).revealed_tiles@[i],
    {
        let n = self.revealed_tiles.len();
        let mut i: usize = 0;
        while i < n
            invariant
                self.wf(),
                n == self.area(),
                i <= n,
                *self == (DungeonMap { revealed_tiles: self.revealed_tiles, ..*old(self) }),
                self.revealed_tiles@.len() == n,
                forall|j: int| 0 <= j < i ==> self.revealed_tiles@[j],
            decreases n - i,
        {
            self.revealed_tiles[i] = true;
            i = i + 1;
        }
    }
}

/// The row-major index of `(x, y)` on the fixed 80-column screen grid.
pub fn xy_idx(x: i32, y: i32) -> (r: usize)
    requires
        0 <= x,
        0 <= y,
        y * 80 + x <= usize::MAX,
    ensures
        r == y * 80 + x,
{
    (y as usize * 80) + x as usize
}

fn filled_bools(n: usize, value: bool) -> (r: Vec<bool>)
    ensures
        r@.len() == n,
        forall|i: int| 0 <= i < n ==> r@[i] == value,
{
    let mut r: Vec<bool> = Vec::new();
    let mut i: usize = 0;
    while i < n
        invariant
            i <= n,
            r@.len() == i,
            forall|j: int| 0 <= j < i ==> r@[j] == value,
        decreases n - i,
    {
        r.push(value);
        i = i + 1;
    }
    r
}

fn filled_tiles(n: usize, value: TileType) -> (r: Vec<TileType>)
    ensures
        r@.len() == n,
        forall|i: int| 0 <= i < n ==> r@[i] == value,
{
    let mut r: Vec<TileType> = Vec::new();
    let mut i: usize = 0;
    while i < n
        invariant
            i <= n,
            r@.len() == i,
            forall|j: int| 0 <= j < i ==> r@[j] == value,
        decreases n - i,
    {
        r.push(value);
        i = i + 1;
    }
    r
}

fn empty_contents(n: usize) -> (r: Vec<Vec<u64>>)
    ensures
        r@.len() == n,
        forall|i: int| 0 <= i < n ==> r@[i]@ == Seq::<u64>::empty(),
{
    let mut r: Vec<Vec<u64>> = Vec::new();
    let mut i: usize = 0;
    while i < n
        invariant
            i <= n,
            r@.len() == i,
            forall|j: int| 0 <= j < i ==> r@[j]@ == Seq::<u64>::empty(),
        decreases n - i,
    {
        r.push(Vec::new());
        i = i + 1;
    }
    r
}

/// A fresh all-`Empty`, all-hidden map of the given dimensions, with no
/// rooms and depth zero.
pub fn new_map(width: usize, height: usize) -> (r: DungeonMap)
    requires
        1 <= width,
        1 <= height,
        width <= i32::MAX,
        height <= i32::MAX,
        width * height <= i32::MAX,
    ensures
        r.wf(),
        r.width == width,
        r.height == height,
        r.rooms@.len() == 0,
        r.depth == 0,
        forall|i: int| 0 <= i < r.area() ==> r.tiles@[i] is Empty,
        forall|i: int| 0 <= i < r.area() ==> !r.revealed_tiles@[i],
        forall|i: int| 0 <= i < r.area() ==> !r.visible_tiles@[i],
        forall|i: int| 0 <= i < r.area() ==> !r.blocked@[i],
        forall|i: int| 0 <= i < r.area() ==> r.tile_content@[i]@ == Seq::<u64>::empty(),
{
    let n = width * height;
    DungeonMap {
        tiles: filled_tiles(n, TileType::Empty),
        width: width as i32,
        rooms: Vec::new(),
        height: height as i32,
        revealed_tiles: filled_bools(n, false),
        visible_tiles: filled_bools(n, false),
        blocked: filled_bools(n, false),
        tile_content: empty_contents(n),
        depth: 0,
    }
}

/// The index of the first `Floor` tile, or the grid size when there is none.
pub open spec fn spec_first_floor(tiles: Seq<TileType>, i: int) -> int
    decreases tiles.len() - i,
{
    if i < 0 || i >= tiles.len() {
        tiles.len() as int
    } else if tiles[i] is Floor {
        i
    } else {
        spec_first_floor(tiles, i + 1)
    }
}

/// The coordinates of the first `Floor` tile in row-major order, or the
/// origin when the map has no floor at all.
pub fn find_starting_position(map: &mut DungeonMap) -> (r: Point)
    requires
        old(map).wf(),
    ensures
        *final(map) == *old(map),
        ({
            let first = spec_first_floor(old(map).tiles@, 0);
            if first < old(map).area() {
                r.x == first % (old(map).width as int) && r.y == first / (old(map).width as int)
            } else {
                r == (Point { x: 0, y: 0 })
            }
        }),
{
    let n = map.tiles.len();
    let mut i: usize = 0;
    while i < n
        invariant
            map.wf(),
            *map == *old(map),
            n == map.area(),
            i <= n,
            spec_first_floor(map.tiles@, 0) == spec_first_floor(map.tiles@, i as int),
        decreases n - i,
    {
        if map.tiles[i] == TileType::Floor {
            let p = map.index_to_point2d(i);
            return p;
        }
        i = i + 1;
    }
    Point::zero()
}

} // verus!
