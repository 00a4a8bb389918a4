use rouge::config::default_map_config;
use rouge::dungeon::add_doors;
use rouge::dungeon::make_dungeon;
use rouge::dungeon::make_map_of_rooms_and_corridors;
use rouge::geometry::Rect;
use rouge::map::new_map;
use rouge::map::xy_idx;
use rouge::map::DungeonMap;
use rouge::map::TileType;

fn at(w: i32, x: i32, y: i32) -> usize {
    (y * w + x) as usize
}

#[test]
fn rasterized_room_has_floor_interior_and_wall_ring() {
    let mut map = new_map(80, 50);
    let room = Rect { x1: 10, y1: 10, x2: 16, y2: 16 };
    make_map_of_rooms_and_corridors(&mut map, vec![room], vec![]);
    for y in 0..50 {
        for x in 0..80 {
            let t = map.tiles[at(map.width, x, y)];
            if x >= 10 && x < 16 && y >= 10 && y < 16 {
                if x == 10 || x == 15 || y == 10 || y == 15 {
                    assert_eq!(t, TileType::Wall, "ring cell ({x},{y})");
                } else {
                    assert_eq!(t, TileType::Floor, "interior cell ({x},{y})");
                }
            } else {
                assert_eq!(t, TileType::Empty, "outside cell ({x},{y})");
            }
        }
    }
    // The interior is the 4x4 block strictly inside the one-tile ring.
    let floors = map.tiles.iter().filter(|t| **t == TileType::Floor).count();
    assert_eq!(floors, 16);
}

#[test]
fn lone_room_gets_no_doors() {
    let mut map = new_map(80, 50);
    let room = Rect { x1: 10, y1: 10, x2: 16, y2: 16 };
    make_map_of_rooms_and_corridors(&mut map, vec![room], vec![]);
    let before = map.tiles.clone();
    add_doors(&mut map);
    assert_eq!(map.tiles, before, "no adjacent room justifies a door");
}

#[test]
fn corridor_border_uses_corridor_wall_and_rooms_take_precedence() {
    let mut map = new_map(80, 50);
    let room = Rect { x1: 4, y1: 4, x2: 12, y2: 12 };
    let corridor = Rect { x1: 10, y1: 6, x2: 20, y2: 9 };
    make_map_of_rooms_and_corridors(&mut map, vec![room], vec![corridor]);
    // A corridor cell beyond the room keeps the corridor's wall type.
    assert_eq!(map.tiles[at(map.width, 18, 6)], TileType::CorWall);
    assert_eq!(map.tiles[at(map.width, 18, 7)], TileType::Floor);
    // Where the room overlaps the corridor, the room's paint wins: its
    // interior floor covers the corridor's wall row, and its border ring
    // covers the corridor's floor.
    assert_eq!(map.tiles[at(map.width, 10, 6)], TileType::Floor);
    assert_eq!(map.tiles[at(map.width, 11, 7)], TileType::Wall);
    assert_eq!(map.tiles[at(map.width, 11, 11)], TileType::Wall);
}

#[test]
fn rasterizing_twice_is_idempotent() {
    let rooms = vec![
        Rect { x1: 4, y1: 4, x2: 12, y2: 12 },
        Rect { x1: 20, y1: 8, x2: 30, y2: 16 },
    ];
    let corridors = vec![
        Rect { x1: 8, y1: 8, x2: 24, y2: 11 },
        Rect { x1: 21, y1: 5, x2: 24, y2: 12 },
    ];
    let mut map = new_map(80, 50);
    make_map_of_rooms_and_corridors(&mut map, rooms.clone(), corridors.clone());
    let once = map.tiles.clone();
    make_map_of_rooms_and_corridors(&mut map, rooms, corridors);
    assert_eq!(map.tiles, once, "second pass changes nothing");
}

#[test]
fn door_inserted_only_on_exact_pattern() {
    // Horizontal pattern: floors left and right, walls above and below.
    let mut map = new_map(5, 5);
    for t in map.tiles.iter_mut() {
        *t = TileType::Empty;
    }
    map.tiles[at(map.width, 2, 2)] = TileType::Wall;
    map.tiles[at(map.width, 1, 2)] = TileType::Floor;
    map.tiles[at(map.width, 3, 2)] = TileType::Floor;
    map.tiles[at(map.width, 2, 1)] = TileType::Wall;
    map.tiles[at(map.width, 2, 3)] = TileType::Wall;
    let before = map.tiles.clone();
    add_doors(&mut map);
    for i in 0..map.tiles.len() {
        if i == at(map.width, 2, 2) {
            assert_eq!(map.tiles[i], TileType::Floor, "the pattern cell becomes a door");
        } else {
            assert_eq!(map.tiles[i], before[i], "no other cell changes");
        }
    }
}

#[test]
fn door_inserted_on_vertical_pattern() {
    let mut map = new_map(5, 5);
    map.tiles[at(map.width, 2, 2)] = TileType::Wall;
    map.tiles[at(map.width, 2, 1)] = TileType::Floor;
    map.tiles[at(map.width, 2, 3)] = TileType::Floor;
    map.tiles[at(map.width, 1, 2)] = TileType::Wall;
    map.tiles[at(map.width, 3, 2)] = TileType::Wall;
    add_doors(&mut map);
    assert_eq!(map.tiles[at(map.width, 2, 2)], TileType::Floor);
}

#[test]
fn no_door_when_one_neighbor_differs() {
    let mut map = new_map(5, 5);
    map.tiles[at(map.width, 2, 2)] = TileType::Wall;
    map.tiles[at(map.width, 1, 2)] = TileType::Floor;
    map.tiles[at(map.width, 3, 2)] = TileType::Floor;
    map.tiles[at(map.width, 2, 1)] = TileType::Floor; // breaks the pattern
    map.tiles[at(map.width, 2, 3)] = TileType::Wall;
    let before = map.tiles.clone();
    add_doors(&mut map);
    assert_eq!(map.tiles, before);
}

#[test]
fn door_classification_reads_pre_pass_layout() {
    // Two vertically stacked cells both qualify against the pre-pass
    // layout. Converting the upper one in place would rob the lower one of
    // its wall-above; classifying against the snapshot converts both.
    let mut map = new_map(5, 6);
    map.tiles[at(map.width, 2, 1)] = TileType::Wall;
    map.tiles[at(map.width, 1, 2)] = TileType::Floor;
    map.tiles[at(map.width, 2, 2)] = TileType::Wall;
    map.tiles[at(map.width, 3, 2)] = TileType::Floor;
    map.tiles[at(map.width, 1, 3)] = TileType::Floor;
    map.tiles[at(map.width, 2, 3)] = TileType::Wall;
    map.tiles[at(map.width, 3, 3)] = TileType::Floor;
    map.tiles[at(map.width, 2, 4)] = TileType::Wall;
    add_doors(&mut map);
    assert_eq!(map.tiles[at(map.width, 2, 2)], TileType::Floor);
    assert_eq!(map.tiles[at(map.width, 2, 3)], TileType::Floor);
}

#[test]
fn make_dungeon_fills_rooms_and_keeps_dimensions() {
    let mgc = default_map_config();
    let mut rng = rltk::RandomNumberGenerator::seeded(1);
    let mut map = new_map(80, 50);
    let ok = make_dungeon(&mgc, &mut rng, &mut map);
    assert!(ok);
    assert_eq!(map.rooms.len(), mgc.num_rooms);
    assert_eq!(map.width, 80);
    assert_eq!(map.height, 50);
    // Every room interior cell ends as floor (doors only add floors).
    for room in map.rooms.iter() {
        for y in (room.y1 + 1)..(room.y2 - 1) {
            for x in (room.x1 + 1)..(room.x2 - 1) {
                assert_eq!(map.tiles[at(map.width, x, y)], TileType::Floor);
            }
        }
    }
}

#[test]
fn xy_idx_is_row_major_over_eighty_columns() {
    assert_eq!(xy_idx(0, 0), 0);
    assert_eq!(xy_idx(3, 2), 163);
    assert_eq!(xy_idx(79, 0), 79);
    assert_eq!(xy_idx(0, 1), 80);
}
