//! Rasterization of rooms and corridors into the tile grid, door insertion,
//! and the full level-generation pipeline.

use vstd::prelude::*;
use vstd::arithmetic::div_mod::lemma_fundamental_div_mod;
use vstd::arithmetic::div_mod::lemma_fundamental_div_mod_converse;
use crate::config::MapGenConfig;
use crate::geometry::Point;
use crate::geometry::Rect;
use crate::map::DungeonMap;
use crate::map::TileType;
use crate::rooms::spec_rooms_ok;

verus! {

/// The tile of a row-major grid at cell `(x, y)`.
pub open spec fn spec_tile_at(tiles: Seq<TileType>, width: int, x: int, y: int) -> TileType {
    tiles[y * width + x]
}

/// Distinct in-bounds cells have distinct row-major indices.
proof fn lemma_idx_injective(width: int, x1: int, y1: int, x2: int, y2: int)
    requires
        0 <= x1 < width,
        0 <= x2 < width,
        0 <= y1,
        0 <= y2,
        !(x1 == x2 && y1 == y2),
    ensures
        y1 * width + x1 != y2 * width + x2,
{
    assert(y1 * width + x1 != y2 * width + x2) by (nonlinear_arith)
        requires
            0 <= x1 < width,
            0 <= x2 < width,
            0 <= y1,
            0 <= y2,
            !(x1 == x2 && y1 == y2),
    ;
}

/// Splitting a row-major index back into coordinates lands in bounds and
/// round-trips.
proof fn lemma_idx_to_xy(width: int, height: int, idx: int)
    requires
        1 <= width,
        1 <= height,
        0 <= idx < width * height,
    ensures
        0 <= idx % width < width,
        0 <= idx / width < height,
        (idx / width) * width + (idx % width) == idx,
{
    lemma_fundamental_div_mod(idx, width);
    assert((idx / width) * width + (idx % width) == idx) by (nonlinear_arith)
        requires
            idx == width * (idx / width) + (idx % width),
    ;
    assert(0 <= idx / width && idx / width < height) by (nonlinear_arith)
        requires
            idx == width * (idx / width) + (idx % width),
            0 <= idx % width < width,
            0 <= idx < width * height,
            1 <= width,
            1 <= height,
    ;
}

/// A row-major index built from in-bounds coordinates is in range and splits
/// back into the same coordinates.
proof fn lemma_xy_to_idx(width: int, height: int, x: int, y: int)
    requires
        1 <= width,
        1 <= height,
        0 <= x < width,
        0 <= y < height,
    ensures
        0 <= y * width + x < width * height,
        (y * width + x) % width == x,
        (y * width + x) / width == y,
{
    assert(0 <= y * width + x < width * height) by (nonlinear_arith)
        requires
            1 <= width,
            1 <= height,
            0 <= x < width,
            0 <= y < height,
    ;
    assert(y * width + x == width * y + x) by (nonlinear_arith);
    lemma_fundamental_div_mod_converse(y * width + x, width, y, x);
}

/// The tile painted at `(x, y)` by a list of rectangles processed in order
/// (a later rectangle overwrites an earlier one), over a previous value:
/// the last covering rectangle decides, border ring as `wall_t`, interior as
/// `floor_t`.
pub open spec fn spec_paint_rects(
    rects: Seq<Rect>,
    floor_t: TileType,
    wall_t: TileType,
    x: int,
    y: int,
    prev: TileType,
) -> TileType
    decreases rects.len(),
{
    if rects.len() == 0 {
        prev
    } else if rects.last().on_border(x, y) {
        wall_t
    } else if rects.last().covers(x, y) {
        floor_t
    } else {
        spec_paint_rects(rects.drop_last(), floor_t, wall_t, x, y, prev)
    }
}

/// Whether any rectangle of the list covers `(x, y)`.
pub open spec fn spec_covered(rects: Seq<Rect>, x: int, y: int) -> bool {
    exists|i: int| 0 <= i < rects.len() && (#[trigger] rects[i]).covers(x, y)
}

/// Paint one rectangle into the grid: its border ring as `wall_type`, its
/// interior as `floor_type`; all other cells keep their value.
fn add_rect_to_map(rect: &Rect, map: &mut DungeonMap, floor_type: TileType, wall_type: TileType)
    requires
        old(map).wf(),
        0 <= rect.x1,
        rect.x2 <= old(map).width,
        0 <= rect.y1,
        rect.y2 <= old(map).height,
    ensures
        final(map).wf(),
        *final(map) == (DungeonMap { tiles: final(map).tiles, ..*old(map) }),
        final(map).tiles@.len() == old(map).tiles@.len(),
        forall|x: int, y: int|
            0 <= x < old(map).width && 0 <= y < old(map).height ==> #[trigger] spec_tile_at(
                final(map).tiles@,
                old(map).width as int,
                x,
                y,
            ) == (if rect.on_border(x, y) {
                wall_type
            } else if rect.covers(x, y) {
                floor_type
            } else {
                spec_tile_at(old(map).tiles@, old(map).width as int, x, y)
            }),
{
    let ghost w = old(map).width as int;
    let mut y = rect.y1;
    while y < rect.y2
        invariant
            map.wf(),
            *map == (DungeonMap { tiles: map.tiles, ..*old(map) }),
            map.tiles@.len() == old(map).tiles@.len(),
            rect.y1 <= y,
            y <= rect.y2 || y == rect.y1,
            0 <= rect.x1,
            rect.x2 <= map.width,
            0 <= rect.y1,
            rect.y2 <= map.height,
            w == map.width as int,
            forall|xx: int, yy: int|
                0 <= xx < map.width && 0 <= yy < map.height ==> #[trigger] spec_tile_at(
                    map.tiles@,
                    w,
                    xx,
                    yy,
                ) == (if rect.covers(xx, yy) && yy < y {
                    if rect.on_border(xx, yy) {
                        wall_type
                    } else {
                        floor_type
                    }
                } else {
                    spec_tile_at(old(map).tiles@, w, xx, yy)
                }),
        decreases rect.y2 - y,
    {
        let mut x = rect.x1;
        while x < rect.x2
            invariant
                map.wf(),
                *map == (DungeonMap { tiles: map.tiles, ..*old(map) }),
                map.tiles@.len() == old(map).tiles@.len(),
                rect.y1 <= y < rect.y2,
                rect.x1 <= x,
                x <= rect.x2 || x == rect.x1,
                0 <= rect.x1,
                rect.x2 <= map.width,
                0 <= rect.y1,
                rect.y2 <= map.height,
                w == map.width as int,
                forall|xx: int, yy: int|
                    0 <= xx < map.width && 0 <= yy < map.height ==> #[trigger] spec_tile_at(
                        map.tiles@,
                        w,
                        xx,
                        yy,
                    ) == (if rect.covers(xx, yy) && (yy < y || (yy == y && xx < x)) {
                        if rect.on_border(xx, yy) {
                            wall_type
                        } else {
                            floor_type
                        }
                    } else {
                        spec_tile_at(old(map).tiles@, w, xx, yy)
                    }),
            decreases rect.x2 - x,
        {
            let idx = map.point2d_to_index(Point { x, y });
            let ghost pre = map.tiles@;
            if x == rect.x1 || x == rect.x2 - 1 || y == rect.y1 || y == rect.y2 - 1 {
                map.tiles[idx] = wall_type;
            } else {
                map.tiles[idx] = floor_type;
            }
            proof {
                assert forall|xx: int, yy: int|
                    0 <= xx < map.width && 0 <= yy < map.height implies #[trigger] spec_tile_at(
                    map.tiles@,
                    w,
                    xx,
                    yy,
                ) == (if rect.covers(xx, yy) && (yy < y || (yy == y && xx < x + 1)) {
                    if rect.on_border(xx, yy) {
                        wall_type
                    } else {
                        floor_type
                    }
                } else {
                    spec_tile_at(old(map).tiles@, w, xx, yy)
                }) by {
                    if xx == x as int && yy == y as int {
                        assert(rect.covers(xx, yy));
                    } else {
                        lemma_idx_injective(w, xx, yy, x as int, y as int);
                        lemma_xy_to_idx(w, map.height as int, xx, yy);
                        assert(spec_tile_at(map.tiles@, w, xx, yy) == spec_tile_at(pre, w, xx, yy));
                    }
                }
            }
            x = x + 1;
        }
        y = y + 1;
    }
}

/// Whether a rectangle's cells all lie inside a `width x height` grid.
pub open spec fn spec_rect_in_grid(r: Rect, width: int, height: int) -> bool {
    0 <= r.x1 && r.x2 <= width && 0 <= r.y1 && r.y2 <= height
}

/// The cell value after painting all corridors (`CorWall` borders) and then
/// all rooms (`Wall` borders): rooms take precedence at any overlap.
pub open spec fn spec_painted_tile(
    old_tiles: Seq<TileType>,
    width: int,
    corridors: Seq<Rect>,
    rooms: Seq<Rect>,
    x: int,
    y: int,
) -> TileType {
    spec_paint_rects(
        rooms,
        TileType::Floor,
        TileType::Wall,
        x,
        y,
        spec_paint_rects(
            corridors,
            TileType::Floor,
            TileType::CorWall,
            x,
            y,
            spec_tile_at(old_tiles, width, x, y),
        ),
    )
}

/// Rasterize a level: paint every corridor, then every room, so that rooms
/// overwrite corridors wherever they overlap.
pub fn make_map_of_rooms_and_corridors(map: &mut DungeonMap, rooms: Vec<Rect>, corridors: Vec<
    Rect,
>)
    requires
        old(map).wf(),
        forall|i: int|
            0 <= i < rooms@.len() ==> spec_rect_in_grid(
                #[trigger] rooms@[i],
                old(map).width as int,
                old(map).height as int,
            ),
        forall|i: int|
            0 <= i < corridors@.len() ==> spec_rect_in_grid(
                #[trigger] corridors@[i],
                old(map).width as int,
                old(map).height as int,
            ),
    ensures
        final(map).wf(),
        *final(map) == (DungeonMap { tiles: final(map).tiles, ..*old(map) }),
        final(map).tiles@.len() == old(map).tiles@.len(),
        forall|x: int, y: int|
            0 <= x < old(map).width && 0 <= y < old(map).height ==> #[trigger] spec_tile_at(
                final(map).tiles@,
                old(map).width as int,
                x,
                y,
            ) == spec_painted_tile(
                old(map).tiles@,
                old(map).width as int,
                corridors@,
                rooms@,
                x,
                y,
            ),
{
    let ghost w = old(map).width as int;
    let mut i: usize = 0;
    while i < corridors.len()
        invariant
            map.wf(),
            *map == (DungeonMap { tiles: map.tiles, ..*old(map) }),
            map.tiles@.len() == old(map).tiles@.len(),
            w == map.width as int,
            i <= corridors@.len(),
            forall|k: int|
                0 <= k < corridors@.len() ==> spec_rect_in_grid(
                    #[trigger] corridors@[k],
                    map.width as int,
                    map.height as int,
                ),
            forall|x: int, y: int|
                0 <= x < map.width && 0 <= y < map.height ==> #[trigger] spec_tile_at(
                    map.tiles@,
                    w,
                    x,
                    y,
                ) == spec_paint_rects(
                    corridors@.take(i as int),
                    TileType::Floor,
                    TileType::CorWall,
                    x,
                    y,
                    spec_tile_at(old(map).tiles@, w, x, y),
                ),
        decreases corridors@.len() - i,
    {
        let corridor = corridors[i];
        add_rect_to_map(&corridor, map, TileType::Floor, TileType::CorWall);
        proof {
            assert(corridors@.take(i + 1).drop_last() =~= corridors@.take(i as int));
            assert(corridors@.take(i + 1).last() == corridors@[i as int]);
        }
        i = i + 1;
    }
    proof {
        assert(corridors@.take(corridors@.len() as int) =~= corridors@);
    }
    let mut j: usize = 0;
    while j < rooms.len()
        invariant
            map.wf(),
            *map == (DungeonMap { tiles: map.tiles, ..*old(map) }),
            map.tiles@.len() == old(map).tiles@.len(),
            w == map.width as int,
            j <= rooms@.len(),
            forall|k: int|
                0 <= k < rooms@.len() ==> spec_rect_in_grid(
                    #[trigger] rooms@[k],
                    map.width as int,
                    map.height as int,
                ),
            forall|x: int, y: int|
                0 <= x < map.width && 0 <= y < map.height ==> #[trigger] spec_tile_at(
                    map.tiles@,
                    w,
                    x,
                    y,
                ) == spec_paint_rects(
                    rooms@.take(j as int),
                    TileType::Floor,
                    TileType::Wall,
                    x,
                    y,
                    spec_paint_rects(
                        corridors@,
                        TileType::Floor,
                        TileType::CorWall,
                        x,
                        y,
                        spec_tile_at(old(map).tiles@, w, x, y),
                    ),
                ),
        decreases rooms@.len() - j,
    {
        let room = rooms[j];
        add_rect_to_map(&room, map, TileType::Floor, TileType::Wall);
        proof {
            assert(rooms@.take(j + 1).drop_last() =~= rooms@.take(j as int));
            assert(rooms@.take(j + 1).last() == rooms@[j as int]);
        }
        j = j + 1;
    }
    proof {
        assert(rooms@.take(rooms@.len() as int) =~= rooms@);
    }
}

/// A cell not on the outer border of the grid.
pub open spec fn spec_interior(width: int, height: int, x: int, y: int) -> bool {
    1 <= x < width - 1 && 1 <= y < height - 1
}

/// The door pattern at `(x, y)`: a `Wall` cell whose left/right neighbors
/// are both `Floor` while up/down are both `Wall`, or the symmetric case.
pub open spec fn spec_door_pattern(tiles: Seq<TileType>, width: int, x: int, y: int) -> bool {
    let c = spec_tile_at(tiles, width, x, y);
    let l = spec_tile_at(tiles, width, x - 1, y);
    let r = spec_tile_at(tiles, width, x + 1, y);
    let u = spec_tile_at(tiles, width, x, y - 1);
    let d = spec_tile_at(tiles, width, x, y + 1);
    c is Wall && ((l is Floor && r is Floor && u is Wall && d is Wall) || (l is Wall && r is Wall
        && u is Floor && d is Floor))
}

/// The cell value after the door pass: an interior cell matching the door
/// pattern becomes `Floor`; every other cell keeps its value.
pub open spec fn spec_doors_tile(
    tiles: Seq<TileType>,
    width: int,
    height: int,
    x: int,
    y: int,
) -> TileType {
    if spec_interior(width, height, x, y) && spec_door_pattern(tiles, width, x, y) {
        TileType::Floor
    } else {
        spec_tile_at(tiles, width, x, y)
    }
}

fn copy_tiles(v: &Vec<TileType>) -> (r: Vec<TileType>)
    ensures
        r@ == v@,
{
    let mut r: Vec<TileType> = Vec::new();
    let mut i: usize = 0;
    while i < v.len()
        invariant
            i <= v@.len(),
            r@ == v@.take(i as int),
        decreases v@.len() - i,
    {
        r.push(v[i]);
        proof {
            assert(r@ =~= v@.take(i + 1));
        }
        i = i + 1;
    }
    proof {
        assert(r@ =~= v@);
    }
    r
}

/// Convert qualifying interior wall cells into doors. All conversions are
/// classified against the pre-pass layout and applied together, so a door
/// created by this pass never influences the classification of a later cell.
/// A cell changes only if it held the exact two-floor/two-wall opposite-pair
/// neighbor pattern, and then it becomes `Floor`.
pub fn add_doors(map: &mut DungeonMap)
    requires
        old(map).wf(),
    ensures
        final(map).wf(),
        *final(map) == (DungeonMap { tiles: final(map).tiles, ..*old(map) }),
        final(map).tiles@.len() == old(map).tiles@.len(),
        forall|x: int, y: int|
            0 <= x < old(map).width && 0 <= y < old(map).height ==> #[trigger] spec_tile_at(
                final(map).tiles@,
                old(map).width as int,
                x,
                y,
            ) == spec_doors_tile(
                old(map).tiles@,
                old(map).width as int,
                old(map).height as int,
                x,
                y,
            ),
        forall|x: int, y: int|
            0 <= x < old(map).width && 0 <= y < old(map).height && #[trigger] spec_tile_at(
                final(map).tiles@,
                old(map).width as int,
                x,
                y,
            ) != spec_tile_at(old(map).tiles@, old(map).width as int, x, y) ==> spec_interior(
                old(map).width as int,
                old(map).height as int,
                x,
                y,
            ) && spec_door_pattern(old(map).tiles@, old(map).width as int, x, y) && spec_tile_at(
                final(map).tiles@,
                old(map).width as int,
                x,
                y,
            ) is Floor,
{
    let ghost w = old(map).width as int;
    let ghost h = old(map).height as int;
    let mut new_tiles = copy_tiles(&map.tiles);
    let mut y: i32 = 1;
    while y < map.height - 1
        invariant
            map.wf(),
            *map == *old(map),
            w == map.width as int,
            h == map.height as int,
            1 <= y,
            new_tiles@.len() == map.tiles@.len(),
            forall|xx: int, yy: int|
                0 <= xx < map.width && 0 <= yy < map.height ==> #[trigger] spec_tile_at(
                    new_tiles@,
                    w,
                    xx,
                    yy,
                ) == (if spec_interior(w, h, xx, yy) && spec_door_pattern(map.tiles@, w, xx, yy)
                    && yy < y {
                    TileType::Floor
                } else {
                    spec_tile_at(map.tiles@, w, xx, yy)
                }),
        decreases map.height - y,
    {
        let mut x: i32 = 1;
        while x < map.width - 1
            invariant
                map.wf(),
                *map == *old(map),
                w == map.width as int,
                h == map.height as int,
                1 <= y < map.height - 1,
                1 <= x,
                new_tiles@.len() == map.tiles@.len(),
                forall|xx: int, yy: int|
                    0 <= xx < map.width && 0 <= yy < map.height ==> #[trigger] spec_tile_at(
                        new_tiles@,
                        w,
                        xx,
                        yy,
                    ) == (if spec_interior(w, h, xx, yy) && spec_door_pattern(map.tiles@, w, xx, yy)
                        && (yy < y || (yy == y && xx < x)) {
                        TileType::Floor
                    } else {
                        spec_tile_at(map.tiles@, w, xx, yy)
                    }),
            decreases map.width - x,
        {
            let c = map.tiles[map.point2d_to_index(Point { x, y })];
            let l = map.tiles[map.point2d_to_index(Point { x: x - 1, y })];
            let r = map.tiles[map.point2d_to_index(Point { x: x + 1, y })];
            let u = map.tiles[map.point2d_to_index(Point { x, y: y - 1 })];
            let d = map.tiles[map.point2d_to_index(Point { x, y: y + 1 })];
            let make_door = c == TileType::Wall && ((l == TileType::Floor && r == TileType::Floor
                && u == TileType::Wall && d == TileType::Wall) || (l == TileType::Wall && r
                == TileType::Wall && u == TileType::Floor && d == TileType::Floor));
            let ghost pre = new_tiles@;
            if make_door {
                let idx = map.point2d_to_index(Point { x, y });
                new_tiles[idx] = TileType::Floor;
            }
            proof {
                assert(make_door == spec_door_pattern(map.tiles@, w, x as int, y as int));
                assert forall|xx: int, yy: int|
                    0 <= xx < map.width && 0 <= yy < map.height implies #[trigger] spec_tile_at(
                    new_tiles@,
                    w,
                    xx,
                    yy,
                ) == (if spec_interior(w, h, xx, yy) && spec_door_pattern(map.tiles@, w, xx, yy) && (
                yy < y || (yy == y && xx < x + 1)) {
                    TileType::Floor
                } else {
                    spec_tile_at(map.tiles@, w, xx, yy)
                }) by {
                    if xx == x as int && yy == y as int {
                    } else {
                        lemma_idx_injective(w, xx, yy, x as int, y as int);
                        lemma_xy_to_idx(w, h, xx, yy);
                        assert(spec_tile_at(new_tiles@, w, xx, yy) == spec_tile_at(pre, w, xx, yy));
                    }
                }
            }
            x = x + 1;
        }
        y = y + 1;
    }
    map.tiles = new_tiles;
}

/// The whole grid after one paint pass, cell by cell.
pub open spec fn spec_paint_grid(
    t: Seq<TileType>,
    width: int,
    corridors: Seq<Rect>,
    rooms: Seq<Rect>,
) -> Seq<TileType> {
    Seq::new(t.len(), |idx: int| spec_painted_tile(t, width, corridors, rooms, idx % width, idx / width))
}

/// The whole grid after the door pass, cell by cell.
pub open spec fn spec_doors_grid(t: Seq<TileType>, width: int, height: int) -> Seq<TileType> {
    Seq::new(t.len(), |idx: int| spec_doors_tile(t, width, height, idx % width, idx / width))
}

proof fn lemma_paint_rects_covered_independent(
    rects: Seq<Rect>,
    f: TileType,
    wt: TileType,
    x: int,
    y: int,
    prev1: TileType,
    prev2: TileType,
)
    requires
        spec_covered(rects, x, y),
    ensures
        spec_paint_rects(rects, f, wt, x, y, prev1) == spec_paint_rects(rects, f, wt, x, y, prev2),
    decreases rects.len(),
{
    if !rects.last().covers(x, y) {
        let i = choose|i: int| 0 <= i < rects.len() && (#[trigger] rects[i]).covers(x, y);
        assert(i < rects.len() - 1);
        assert(rects.drop_last()[i] == rects[i]);
        assert(spec_covered(rects.drop_last(), x, y));
        lemma_paint_rects_covered_independent(rects.drop_last(), f, wt, x, y, prev1, prev2);
    }
}

proof fn lemma_paint_rects_uncovered(
    rects: Seq<Rect>,
    f: TileType,
    wt: TileType,
    x: int,
    y: int,
    prev: TileType,
)
    requires
        !spec_covered(rects, x, y),
    ensures
        spec_paint_rects(rects, f, wt, x, y, prev) == prev,
    decreases rects.len(),
{
    if rects.len() > 0 {
        assert(!rects.last().covers(x, y));
        assert forall|i: int| 0 <= i < rects.drop_last().len() implies !(#[trigger] rects.drop_last()[i]).covers(
            x,
            y,
        ) by {
            assert(rects.drop_last()[i] == rects[i]);
        }
        lemma_paint_rects_uncovered(rects.drop_last(), f, wt, x, y, prev);
    }
}

/// Rasterizing the same room and corridor set a second time, over the grid
/// the first pass produced, yields the identical grid: a cell covered by
/// some rectangle gets a value that depends only on the rectangles, and a
/// cell covered by none keeps its value.
pub proof fn lemma_rasterize_idempotent(
    t: Seq<TileType>,
    width: int,
    height: int,
    corridors: Seq<Rect>,
    rooms: Seq<Rect>,
)
    requires
        1 <= width,
        1 <= height,
        t.len() == width * height,
    ensures
        spec_paint_grid(spec_paint_grid(t, width, corridors, rooms), width, corridors, rooms)
            == spec_paint_grid(t, width, corridors, rooms),
{
    let g1 = spec_paint_grid(t, width, corridors, rooms);
    let g2 = spec_paint_grid(g1, width, corridors, rooms);
    assert forall|idx: int| 0 <= idx < t.len() implies g2[idx] == g1[idx] by {
        let x = idx % width;
        let y = idx / width;
        lemma_idx_to_xy(width, height, idx);
        if spec_covered(rooms, x, y) {
            lemma_paint_rects_covered_independent(
                rooms,
                TileType::Floor,
                TileType::Wall,
                x,
                y,
                spec_paint_rects(
                    corridors,
                    TileType::Floor,
                    TileType::CorWall,
                    x,
                    y,
                    spec_tile_at(g1, width, x, y),
                ),
                spec_paint_rects(
                    corridors,
                    TileType::Floor,
                    TileType::CorWall,
                    x,
                    y,
                    spec_tile_at(t, width, x, y),
                ),
            );
        } else {
            lemma_paint_rects_uncovered(
                rooms,
                TileType::Floor,
                TileType::Wall,
                x,
                y,
                spec_paint_rects(
                    corridors,
                    TileType::Floor,
                    TileType::CorWall,
                    x,
                    y,
                    spec_tile_at(g1, width, x, y),
                ),
            );
            lemma_paint_rects_uncovered(
                rooms,
                TileType::Floor,
                TileType::Wall,
                x,
                y,
                spec_paint_rects(
                    corridors,
                    TileType::Floor,
                    TileType::CorWall,
                    x,
                    y,
                    spec_tile_at(t, width, x, y),
                ),
            );
            if spec_covered(corridors, x, y) {
                lemma_paint_rects_covered_independent(
                    corridors,
                    TileType::Floor,
                    TileType::CorWall,
                    x,
                    y,
                    spec_tile_at(g1, width, x, y),
                    spec_tile_at(t, width, x, y),
                );
            } else {
                lemma_paint_rects_uncovered(
                    corridors,
                    TileType::Floor,
                    TileType::CorWall,
                    x,
                    y,
                    spec_tile_at(g1, width, x, y),
                );
                lemma_paint_rects_uncovered(
                    corridors,
                    TileType::Floor,
                    TileType::CorWall,
                    x,
                    y,
                    spec_tile_at(t, width, x, y),
                );
                assert(spec_tile_at(g1, width, x, y) == g1[idx]);
            }
        }
    }
    assert(g2 =~= g1);
}

/// Generate a whole level in place: rooms, corridors, rasterization, doors.
/// `false` means room placement exhausted its attempt budget and the map is
/// untouched.
pub fn make_dungeon(
    mgc: &MapGenConfig,
    rng: &mut rltk::RandomNumberGenerator,
    map: &mut DungeonMap,
) -> (ok: bool)
    requires
        old(map).wf(),
        mgc.wf(),
        old(map).width >= mgc.max_room_x,
        old(map).height >= mgc.max_room_y,
    ensures
        final(map).wf(),
        mgc.num_rooms == 0 ==> ok,
        !ok ==> *final(map) == *old(map),
        ok ==> *final(map) == (DungeonMap {
            tiles: final(map).tiles,
            rooms: final(map).rooms,
            ..*old(map)
        }),
        ok ==> final(map).rooms@.len() == mgc.num_rooms && spec_rooms_ok(final(map).rooms@, *mgc),
        ok ==> exists|cors: Seq<Rect>|
            (forall|i: int|
                0 <= i < cors.len() ==> crate::rooms::spec_room_fits(#[trigger] cors[i], *mgc))
                && (forall|i: int|
                0 <= i < cors.len() ==> crate::corridors::spec_seg_from_room_pair(
                    final(map).rooms@,
                    *mgc,
                    #[trigger] cors[i],
                )) && final(map).tiles@ == spec_doors_grid(
                #[trigger] spec_paint_grid(
                    old(map).tiles@,
                    old(map).width as int,
                    cors,
                    final(map).rooms@,
                ),
                old(map).width as int,
                old(map).height as int,
            ),
{
    let ghost w = old(map).width as int;
    let ghost h = old(map).height as int;
    match crate::corridors::generate_rooms_and_corridors(mgc, rng) {
        None => false,
        Some((rooms, cors)) => {
            proof {
                assert forall|i: int|
                    0 <= i < rooms@.len() implies spec_rect_in_grid(#[trigger] rooms@[i], w, h) by {
                    assert(crate::rooms::spec_room_fits(rooms@[i], *mgc));
                    assert(crate::rooms::spec_room_sampled(rooms@[i], *mgc));
                }
                assert forall|i: int|
                    0 <= i < cors@.len() implies spec_rect_in_grid(#[trigger] cors@[i], w, h) by {
                    assert(crate::rooms::spec_room_fits(cors@[i], *mgc));
                }
            }
            map.rooms = crate::corridors::copy_rects(&rooms);
            let ghost painted = spec_paint_grid(old(map).tiles@, w, cors@, rooms@);
            let ghost cors_view = cors@;
            make_map_of_rooms_and_corridors(map, rooms, cors);
            proof {
                assert forall|idx: int| 0 <= idx < map.tiles@.len() implies map.tiles@[idx]
                    == painted[idx] by {
                    lemma_idx_to_xy(w, h, idx);
                    assert(spec_tile_at(map.tiles@, w, idx % w, idx / w) == map.tiles@[idx]);
                }
                assert(map.tiles@ =~= painted);
            }
            add_doors(map);
            proof {
                assert forall|idx: int| 0 <= idx < map.tiles@.len() implies map.tiles@[idx]
                    == spec_doors_grid(painted, w, h)[idx] by {
                    lemma_idx_to_xy(w, h, idx);
                    assert(spec_tile_at(map.tiles@, w, idx % w, idx / w) == map.tiles@[idx]);
                    assert(spec_tile_at(painted, w, idx % w, idx / w) == painted[idx]);
                }
                assert(map.tiles@ =~= spec_doors_grid(painted, w, h));
                assert((forall|i: int|
                    0 <= i < cors_view.len() ==> crate::rooms::spec_room_fits(
                        #[trigger] cors_view[i],
                        *mgc,
                    )) && (forall|i: int|
                    0 <= i < cors_view.len() ==> crate::corridors::spec_seg_from_room_pair(
                        map.rooms@,
                        *mgc,
                        #[trigger] cors_view[i],
                    )) && map.tiles@ == spec_doors_grid(
                    #[trigger] spec_paint_grid(old(map).tiles@, w, cors_view, map.rooms@),
                    w,
                    h,
                ));
            }
            true
        },
    }
}

} // verus!
