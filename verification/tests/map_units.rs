use rouge::config::default_map_config;
use rouge::geometry::Point;
use rouge::geometry::Rect;
use rouge::map::find_starting_position;
use rouge::map::new_map;
use rouge::map::TileType;
use rouge::monster::DefaultMonsterGenerator;
use rouge::monster::DefaultSpawnerGenerator;
use rouge::monster::MonsterGenerator;

#[test]
fn new_map_starts_empty_and_hidden() {
    let map = new_map(8, 6);
    assert_eq!(map.width, 8);
    assert_eq!(map.height, 6);
    assert_eq!(map.tiles.len(), 48);
    assert_eq!(map.depth, 0);
    assert!(map.rooms.is_empty());
    assert!(map.tiles.iter().all(|t| *t == TileType::Empty));
    assert!(map.revealed_tiles.iter().all(|r| !r));
    assert!(map.visible_tiles.iter().all(|v| !v));
    assert!(map.blocked.iter().all(|b| !b));
    assert!(map.tile_content.iter().all(|c| c.is_empty()));
}

#[test]
fn default_config_is_the_stock_eighty_column_setup() {
    let mgc = default_map_config();
    assert!(mgc.is_wf());
    assert_eq!(mgc.num_rooms, 10);
    assert_eq!(mgc.corridor_size, 3);
    assert_eq!(mgc.max_room_x, 78);
    assert_eq!(mgc.max_room_y, 48);
    assert_eq!(mgc.min_room_width, 6);
    assert_eq!(mgc.max_room_width, 10);
    assert_eq!(mgc.room_max_connections, 2);
}

#[test]
fn index_and_point_mapping_round_trip() {
    let map = new_map(13, 9);
    for y in 0..9 {
        for x in 0..13 {
            let p = Point { x, y };
            let idx = map.point2d_to_index(p);
            assert_eq!(idx, (y * 13 + x) as usize);
            assert_eq!(map.index_to_point2d(idx), p);
        }
    }
}

#[test]
fn in_bounds_rejects_coordinates_off_the_grid() {
    let map = new_map(13, 9);
    assert!(map.in_bounds(Point { x: 0, y: 0 }));
    assert!(map.in_bounds(Point { x: 12, y: 8 }));
    assert!(!map.in_bounds(Point { x: 13, y: 8 }));
    assert!(!map.in_bounds(Point { x: 12, y: 9 }));
    assert!(!map.in_bounds(Point { x: -1, y: 0 }));
    let dims = map.dimensions();
    assert_eq!((dims.x, dims.y), (13, 9));
}

#[test]
fn starting_position_is_the_first_floor_tile() {
    let mut map = new_map(10, 10);
    assert_eq!(find_starting_position(&mut map), Point { x: 0, y: 0 });
    let idx = (4 * 10 + 7) as usize;
    map.tiles[idx] = TileType::Floor;
    map.tiles[idx + 1] = TileType::Floor;
    assert_eq!(find_starting_position(&mut map), Point { x: 7, y: 4 });
}

#[test]
fn reveal_map_marks_everything_revealed() {
    let mut map = new_map(10, 10);
    map.reveal_map();
    assert!(map.revealed_tiles.iter().all(|r| *r));
}

#[test]
fn tile_blockers_are_the_two_wall_kinds() {
    assert!(TileType::Wall.is_blocker());
    assert!(TileType::CorWall.is_blocker());
    assert!(!TileType::Floor.is_blocker());
    assert!(!TileType::Empty.is_blocker());
}

#[test]
fn rect_geometry_matches_its_corners() {
    let r = Rect::with_size(3, 4, 6, 5);
    assert_eq!((r.x1, r.y1, r.x2, r.y2), (3, 4, 9, 9));
    assert_eq!(r.width(), 6);
    assert_eq!(r.height(), 5);
    assert_eq!(r.center(), Point { x: 6, y: 6 });
    let other = Rect::with_exact(9, 4, 12, 9);
    assert!(r.intersect(&other), "touching rectangles count as intersecting");
    let far = Rect::with_exact(20, 20, 25, 25);
    assert!(!r.intersect(&far));
}

#[test]
fn monster_generator_draws_a_stock_monster() {
    let mut rng = rltk::RandomNumberGenerator::seeded(0);
    let gen = DefaultMonsterGenerator;
    let spec = gen.gen_one_with_pos(&mut rng, 5, 6);
    assert_eq!(spec.point, Point { x: 5, y: 6 });
    assert_eq!(spec.name, "Orgy Hunter");
    assert_eq!(spec.glyph, 'o');
    let stats = spec.combat_stats.expect("stock monsters fight");
    assert_eq!(stats.hp, 16);
    assert_eq!(stats.power, 4);
}

#[test]
fn spawner_generator_draws_a_stock_spawner() {
    let mut rng = rltk::RandomNumberGenerator::seeded(0);
    let gen = DefaultSpawnerGenerator;
    let spec = gen.gen_one_with_pos(&mut rng, 2, 3);
    assert_eq!(spec.point, Point { x: 2, y: 3 });
    assert_eq!(spec.name, "Cow Spawner");
    assert_eq!(spec.spawn_spec.name, "Cow Spawnling");
    assert_eq!(spec.spawn_max, 5);
    assert_eq!(spec.combat_stats.hp, 2);
}

#[test]
fn viewshed_starts_dirty_and_empty() {
    let shed = rouge::visibility::Viewshed::new(8);
    assert!(shed.dirty);
    assert_eq!(shed.range, 8);
    assert!(shed.visible_tiles.is_empty());
}
