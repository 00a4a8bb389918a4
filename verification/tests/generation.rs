use rouge::config::default_map_config;
use rouge::config::MapGenConfig;
use rouge::corridors::all_edges;
use rouge::corridors::cononical_rect;
use rouge::corridors::connect_some_rooms;
use rouge::corridors::connect_two_rooms;
use rouge::corridors::generate_rooms_and_corridors;
use rouge::corridors::order_points;
use rouge::geometry::Point;
use rouge::geometry::Rect;
use rouge::rooms::build_room_rect;
use rouge::rooms::generate_some_rooms;
use rouge::rooms::room_does_not_overlap;
use rouge::rooms::room_fits_in_map;
use rouge::rooms::room_works;

fn p6_config() -> MapGenConfig {
    MapGenConfig {
        max_room_width: 7,
        max_room_height: 7,
        min_room_width: 6,
        min_room_height: 6,
        min_room_x: 10,
        min_room_y: 10,
        max_room_x: 17,
        max_room_y: 17,
        num_rooms: 1,
        corridor_size: 3,
        room_max_connections: 2,
    }
}

#[test]
fn build_room_rect_respects_bounds() {
    let mut rng = rltk::RandomNumberGenerator::seeded(7);
    let mgc = default_map_config();
    for _ in 0..200 {
        let room = build_room_rect(&mut rng, &mgc);
        assert!(room.x1 >= mgc.min_room_x);
        assert!(room.x2 < mgc.max_room_x);
        assert!(room.y1 >= mgc.min_room_y);
        assert!(room.y2 < mgc.max_room_y);
        assert!(room.x2 - room.x1 >= mgc.min_room_width);
        assert!(room.x2 - room.x1 <= mgc.max_room_width);
        assert!(room.y2 - room.y1 >= mgc.min_room_height);
        assert!(room.y2 - room.y1 <= mgc.max_room_height);
    }
}

#[test]
fn generator_returns_exactly_num_rooms_pairwise_disjoint() {
    let mut rng = rltk::RandomNumberGenerator::seeded(0);
    let mgc = default_map_config();
    let rooms = generate_some_rooms(&mut rng, &mgc).expect("feasible config must place rooms");
    assert_eq!(rooms.len(), mgc.num_rooms);
    for (i, room) in rooms.iter().enumerate() {
        assert!(room_fits_in_map(room, &mgc));
        assert!(room_does_not_overlap(room, &rooms));
        assert!(room_works(room, &mgc, &rooms));
        for (j, other) in rooms.iter().enumerate() {
            if i != j {
                assert!(!room.intersect(other), "rooms {i} and {j} intersect");
            }
        }
    }
}

#[test]
fn forced_single_room_matches_requested_bounds() {
    let mut rng = rltk::RandomNumberGenerator::seeded(3);
    let mgc = p6_config();
    let rooms = generate_some_rooms(&mut rng, &mgc).expect("single forced room");
    assert_eq!(rooms.len(), 1);
    let room = rooms[0];
    assert_eq!(room, Rect { x1: 10, y1: 10, x2: 16, y2: 16 });
}

#[test]
fn order_points_same_y_picks_smaller_x_first() {
    let a = Point { x: 12, y: 4 };
    let b = Point { x: 4, y: 4 };
    let (first, second) = order_points(a, b);
    assert_eq!(first, b);
    assert_eq!(second, a);
    let (first2, second2) = order_points(b, a);
    assert_eq!(first2, b);
    assert_eq!(second2, a);
}

#[test]
fn order_points_smaller_y_first() {
    let a = Point { x: 1, y: 9 };
    let b = Point { x: 5, y: 2 };
    let (first, second) = order_points(a, b);
    assert_eq!(first, b);
    assert_eq!(second, a);
}

#[test]
fn same_row_corridor_degenerates_to_horizontal_band() {
    let mgc = default_map_config();
    let mut rng = rltk::RandomNumberGenerator::seeded(11);
    let room1 = Rect { x1: 2, y1: 2, x2: 6, y2: 6 };
    let room2 = Rect { x1: 10, y1: 2, x2: 14, y2: 6 };
    let c1 = room1.center();
    let c2 = room2.center();
    assert_eq!(c1, Point { x: 4, y: 4 });
    assert_eq!(c2, Point { x: 12, y: 4 });
    let (p1, p2) = order_points(c1, c2);
    assert_eq!(p1, c1);
    let paths = cononical_rect(p1, p2);
    assert_eq!(paths, Rect { x1: 4, y1: 4, x2: 12, y2: 4 });
    let band = Rect { x1: 4, y1: 4, x2: 15, y2: 7 };
    let edges = all_edges(&paths, &mgc);
    assert_eq!(edges[0], band);
    let segments = connect_two_rooms(&mgc, &mut rng, &room1, &room2);
    assert_eq!(segments.len(), 2);
    for seg in segments.iter() {
        assert_eq!(seg.y1, 4);
        assert_eq!(seg.y2, 7, "thickness equals corridor_size");
        assert!(seg.x1 >= band.x1 && seg.x2 <= band.x2, "segment stays inside the band");
    }
    assert!(segments.contains(&band), "one segment is the full horizontal band");
}

#[test]
fn room_fit_respects_configured_minima() {
    let mut mgc = default_map_config();
    mgc.min_room_x = 5;
    mgc.min_room_y = 5;
    assert!(!room_fits_in_map(&Rect { x1: 1, y1: 6, x2: 4, y2: 9 }, &mgc));
    assert!(!room_fits_in_map(&Rect { x1: 6, y1: 1, x2: 9, y2: 4 }, &mgc));
    assert!(room_fits_in_map(&Rect { x1: 5, y1: 5, x2: 9, y2: 9 }, &mgc));
    assert!(!room_fits_in_map(&Rect { x1: 5, y1: 5, x2: 78, y2: 9 }, &mgc));
    let zero = MapGenConfig { min_room_x: 0, min_room_y: 0, ..mgc };
    assert!(room_fits_in_map(&Rect { x1: 0, y1: 0, x2: 9, y2: 9 }, &zero));
}

#[test]
fn corridors_fit_inside_map_bounds() {
    let mgc = default_map_config();
    let mut rng = rltk::RandomNumberGenerator::seeded(5);
    let rooms = generate_some_rooms(&mut rng, &mgc).expect("rooms");
    for origin in rooms.iter() {
        let segs = connect_some_rooms(&mgc, &mut rng, origin, &rooms);
        assert!(segs.len() <= 2 * mgc.room_max_connections, "at most two segments per connection");
        for seg in segs.iter() {
            assert!(room_fits_in_map(seg, &mgc), "corridor {seg:?} leaves the bounds");
        }
    }
}

#[test]
fn routable_neighbors_guarantee_a_corridor() {
    let mgc = default_map_config();
    let mut rng = rltk::RandomNumberGenerator::seeded(23);
    let room1 = Rect { x1: 2, y1: 2, x2: 6, y2: 6 };
    let room2 = Rect { x1: 10, y1: 2, x2: 14, y2: 6 };
    let rooms = vec![room1, room2];
    for _ in 0..20 {
        let segs = connect_some_rooms(&mgc, &mut rng, &room1, &rooms);
        assert!(segs.len() >= 2, "a routable neighbor yields at least one whole path");
    }
}

#[test]
fn generate_rooms_and_corridors_full_layout() {
    let mgc = default_map_config();
    let mut rng = rltk::RandomNumberGenerator::seeded(42);
    let (rooms, corridors) = generate_rooms_and_corridors(&mgc, &mut rng).expect("layout");
    assert_eq!(rooms.len(), mgc.num_rooms);
    for seg in corridors.iter() {
        assert!(room_fits_in_map(seg, &mgc));
    }
}

#[test]
fn shuffled_room_targets_still_give_in_bounds_corridors() {
    // A shuffle that invented or corrupted rectangles would surface here:
    // every corridor must stay in bounds for every room it targets.
    let mgc = default_map_config();
    let mut rng = rltk::RandomNumberGenerator::seeded(99);
    let rooms = vec![
        Rect { x1: 2, y1: 2, x2: 10, y2: 10 },
        Rect { x1: 30, y1: 4, x2: 38, y2: 12 },
        Rect { x1: 12, y1: 30, x2: 20, y2: 38 },
        Rect { x1: 50, y1: 20, x2: 58, y2: 28 },
    ];
    for origin in rooms.iter() {
        let segs = connect_some_rooms(&mgc, &mut rng, origin, &rooms);
        assert!(segs.len() % 2 == 0, "corridors come as segment pairs");
        for seg in segs.iter() {
            assert!(room_fits_in_map(seg, &mgc));
        }
    }
}
