use rouge::components::Position;
use rouge::geometry::Point;
use rouge::index::EntityPos;
use rouge::index::MapIndexingSystem;
use rouge::map::new_map;
use rouge::map::DungeonMap;
use rouge::map::TileType;
use rouge::monster_ai::monster_in_melee_range;
use rouge::monster_ai::MonsterAI;
use rouge::player::try_move_player;
use rouge::player::PlayerMove;
use rouge::state::tick_transition;
use rouge::state::RunState;
use rouge::visibility::Viewshed;
use rouge::visibility::VisibilitySystem;

fn at(w: i32, x: i32, y: i32) -> usize {
    (y * w + x) as usize
}

fn all_floor(width: usize, height: usize) -> DungeonMap {
    let mut map = new_map(width, height);
    for t in map.tiles.iter_mut() {
        *t = TileType::Floor;
    }
    map
}

#[test]
fn blocking_entity_blocks_its_tile_until_it_moves() {
    let mut map = all_floor(10, 10);
    let roster = vec![EntityPos { id: 7, x: 3, y: 4, blocks: true }];
    MapIndexingSystem::run(&mut map, &roster);
    assert!(map.blocked[at(map.width, 3, 4)]);
    assert_eq!(map.tile_content[at(map.width, 3, 4)], vec![7]);
    let moved = vec![EntityPos { id: 7, x: 4, y: 4, blocks: true }];
    MapIndexingSystem::run(&mut map, &moved);
    assert!(!map.blocked[at(map.width, 3, 4)], "the vacated tile unblocks on rebuild");
    assert!(map.blocked[at(map.width, 4, 4)]);
    assert!(map.tile_content[at(map.width, 3, 4)].is_empty());
    assert_eq!(map.tile_content[at(map.width, 4, 4)], vec![7]);
}

#[test]
fn index_rebuild_keeps_terrain_blocking_and_roster_order() {
    let mut map = all_floor(10, 10);
    map.tiles[at(map.width, 0, 0)] = TileType::Wall;
    map.tiles[at(map.width, 1, 0)] = TileType::CorWall;
    let roster = vec![
        EntityPos { id: 2, x: 5, y: 5, blocks: false },
        EntityPos { id: 9, x: 5, y: 5, blocks: false },
        EntityPos { id: 4, x: 6, y: 5, blocks: true },
    ];
    MapIndexingSystem::run(&mut map, &roster);
    assert!(map.blocked[at(map.width, 0, 0)], "walls block");
    assert!(map.blocked[at(map.width, 1, 0)], "corridor walls block");
    assert!(!map.blocked[at(map.width, 5, 5)], "non-blocking entities leave the tile free");
    assert!(map.blocked[at(map.width, 6, 5)]);
    assert_eq!(map.tile_content[at(map.width, 5, 5)], vec![2, 9], "roster order kept");
}

#[test]
fn player_viewshed_marks_visible_and_revealed() {
    let mut map = all_floor(10, 10);
    let mut shed = Viewshed::new(8);
    let fov = vec![
        Point { x: 2, y: 2 },
        Point { x: 3, y: 2 },
        Point { x: -1, y: 4 },
        Point { x: 12, y: 4 },
    ];
    VisibilitySystem::apply_viewshed(&mut map, &mut shed, &fov, true);
    assert!(!shed.dirty);
    assert_eq!(shed.visible_tiles, vec![Point { x: 2, y: 2 }, Point { x: 3, y: 2 }]);
    assert!(map.visible_tiles[at(map.width, 2, 2)]);
    assert!(map.visible_tiles[at(map.width, 3, 2)]);
    assert!(map.revealed_tiles[at(map.width, 2, 2)]);
    for i in 0..map.tiles.len() {
        if map.visible_tiles[i] {
            assert!(map.revealed_tiles[i], "visible tile {i} must be revealed");
        }
    }
}

#[test]
fn revealed_survives_later_passes_visible_does_not() {
    let mut map = all_floor(10, 10);
    let mut shed = Viewshed::new(8);
    VisibilitySystem::apply_viewshed(&mut map, &mut shed, &vec![Point { x: 2, y: 2 }], true);
    assert!(map.revealed_tiles[at(map.width, 2, 2)]);
    VisibilitySystem::apply_viewshed(&mut map, &mut shed, &vec![Point { x: 7, y: 7 }], true);
    assert!(map.revealed_tiles[at(map.width, 2, 2)], "revealed never reverts");
    assert!(!map.visible_tiles[at(map.width, 2, 2)], "visible is recomputed each pass");
    assert!(map.visible_tiles[at(map.width, 7, 7)]);
    assert!(map.revealed_tiles[at(map.width, 7, 7)]);
}

#[test]
fn non_player_viewshed_leaves_overlay_untouched() {
    let mut map = all_floor(10, 10);
    let mut shed = Viewshed::new(8);
    VisibilitySystem::apply_viewshed(&mut map, &mut shed, &vec![Point { x: 2, y: 2 }], false);
    assert_eq!(shed.visible_tiles, vec![Point { x: 2, y: 2 }]);
    assert!(!shed.dirty);
    assert!(map.visible_tiles.iter().all(|v| !v));
    assert!(map.revealed_tiles.iter().all(|v| !v));
}

#[test]
fn viewshed_sees_exactly_its_visible_points() {
    let mut map = all_floor(10, 10);
    let mut shed = Viewshed::new(8);
    let fov = vec![Point { x: 2, y: 2 }, Point { x: 3, y: 2 }];
    VisibilitySystem::apply_viewshed(&mut map, &mut shed, &fov, false);
    assert!(shed.sees(Point { x: 2, y: 2 }));
    assert!(shed.sees(Point { x: 3, y: 2 }));
    assert!(!shed.sees(Point { x: 4, y: 2 }));
}

#[test]
fn melee_range_is_adjacency_with_diagonals() {
    let origin = Point { x: 5, y: 5 };
    assert!(monster_in_melee_range(origin, Point { x: 5, y: 5 }));
    assert!(monster_in_melee_range(origin, Point { x: 6, y: 5 }));
    assert!(monster_in_melee_range(origin, Point { x: 4, y: 6 }));
    assert!(monster_in_melee_range(origin, Point { x: 6, y: 6 }));
    assert!(!monster_in_melee_range(origin, Point { x: 7, y: 5 }));
    assert!(!monster_in_melee_range(origin, Point { x: 7, y: 6 }));
}

#[test]
fn monster_advances_to_second_step_and_updates_blocking() {
    let mut map = all_floor(10, 10);
    let mut pos = Position { point: Point { x: 2, y: 2 } };
    let mut shed = Viewshed::new(8);
    let start = at(map.width, 2, 2);
    map.blocked[start] = true;
    let steps = vec![start, at(map.width, 3, 3), at(map.width, 4, 4), at(map.width, 5, 5)];
    let moved = MonsterAI::monster_advance(&mut map, &mut pos, &mut shed, true, &steps);
    assert!(moved);
    assert_eq!(pos.point, Point { x: 3, y: 3 });
    assert!(!map.blocked[start], "the vacated tile is cleared");
    assert!(map.blocked[at(map.width, 3, 3)], "the occupied tile is set");
    assert!(shed.dirty);
}

#[test]
fn monster_stays_put_on_short_or_failed_paths() {
    let mut map = all_floor(10, 10);
    let mut pos = Position { point: Point { x: 2, y: 2 } };
    let mut shed = Viewshed::new(8);
    shed.dirty = false;
    let short = vec![at(map.width, 2, 2), at(map.width, 3, 3)];
    assert!(!MonsterAI::monster_advance(&mut map, &mut pos, &mut shed, true, &short));
    assert_eq!(pos.point, Point { x: 2, y: 2 });
    let long = vec![at(map.width, 2, 2), at(map.width, 3, 3), at(map.width, 4, 4)];
    assert!(!MonsterAI::monster_advance(&mut map, &mut pos, &mut shed, false, &long));
    assert_eq!(pos.point, Point { x: 2, y: 2 });
    assert!(!shed.dirty);
}

#[test]
fn player_attacks_first_fightable_occupant() {
    let mut map = all_floor(10, 10);
    map.tile_content[at(map.width, 4, 3)] = vec![11, 22, 33];
    let combatants = vec![22, 33];
    let mv = try_move_player(1, 0, &map, Point { x: 3, y: 3 }, &combatants);
    assert_eq!(mv, PlayerMove::Attack(22));
}

#[test]
fn player_walks_onto_free_floor_and_stops_at_walls() {
    let mut map = all_floor(10, 10);
    map.tiles[at(map.width, 3, 4)] = TileType::Wall;
    let combatants: Vec<u64> = vec![];
    let walk = try_move_player(1, 0, &map, Point { x: 3, y: 3 }, &combatants);
    assert_eq!(walk, PlayerMove::Walk(Point { x: 4, y: 3 }));
    let stay = try_move_player(0, 1, &map, Point { x: 3, y: 3 }, &combatants);
    assert_eq!(stay, PlayerMove::Stay);
}

#[test]
fn player_step_is_clamped_to_the_map() {
    let map = all_floor(10, 10);
    let combatants: Vec<u64> = vec![];
    let mv = try_move_player(-1, 0, &map, Point { x: 0, y: 0 }, &combatants);
    assert_eq!(mv, PlayerMove::Walk(Point { x: 0, y: 0 }));
    let mv2 = try_move_player(1, 1, &map, Point { x: 9, y: 9 }, &combatants);
    assert_eq!(mv2, PlayerMove::Walk(Point { x: 9, y: 9 }));
}

#[test]
fn turn_states_advance_in_order() {
    assert_eq!(tick_transition(RunState::PreRun), RunState::AwaitingInput);
    assert_eq!(tick_transition(RunState::AwaitingInput), RunState::AwaitingInput);
    assert_eq!(tick_transition(RunState::PlayerTurn), RunState::MonsterTurn);
    assert_eq!(tick_transition(RunState::MonsterTurn), RunState::AwaitingInput);
    assert_eq!(tick_transition(RunState::RevealMap), RunState::AwaitingInput);
    assert_eq!(tick_transition(RunState::GameOver), RunState::GameOver);
}
