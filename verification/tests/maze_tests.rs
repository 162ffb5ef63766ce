use maze_chase::maze;

#[test]
fn tile_samples() {
    // Borders are walls.
    assert_eq!(maze::tile(0, 0), maze::WALL);
    assert_eq!(maze::tile(26, 30), maze::WALL);
    // Player spawn and the tile above the pen exit.
    assert_eq!(maze::tile(13, 23), maze::PATH);
    assert_eq!(maze::tile(13, 11), maze::PATH);
    // The pen gate and the pen floor.
    assert_eq!(maze::tile(13, 12), maze::GATE);
    assert_eq!(maze::tile(13, 13), maze::GATE);
    assert_eq!(maze::tile(13, 14), maze::PEN);
    assert_eq!(maze::tile(12, 14), maze::PEN);
    assert_eq!(maze::tile(14, 14), maze::PEN);
    // Tunnel ends.
    assert_eq!(maze::tile(0, 14), maze::PATH);
    assert_eq!(maze::tile(26, 14), maze::PATH);
    // The four energizers.
    assert_eq!(maze::tile(1, 3), maze::ENERGIZER);
    assert_eq!(maze::tile(25, 3), maze::ENERGIZER);
    assert_eq!(maze::tile(1, 23), maze::ENERGIZER);
    assert_eq!(maze::tile(25, 23), maze::ENERGIZER);
    // A no-up tile.
    assert_eq!(maze::tile(11, 11), maze::NO_UP);
}

#[test]
fn walkability_rules() {
    // A wall blocks everyone.
    assert!(!maze::is_walkable_player(0, 0));
    assert!(!maze::is_walkable_ghost(0, 0));
    // The pen gate blocks the player but not a ghost.
    assert!(!maze::is_walkable_player(13, 12));
    assert!(maze::is_walkable_ghost(13, 12));
    // The pen floor: same tile either way, and open to ghosts.
    assert!(maze::is_walkable_ghost(13, 14));
    // Off the grid nobody walks.
    assert!(!maze::is_walkable_player(-1, 14));
    assert!(!maze::is_walkable_player(27, 14));
    assert!(!maze::is_walkable_ghost(13, -1));
    assert!(!maze::is_walkable_ghost(13, 31));
    // Open path.
    assert!(maze::is_walkable_player(13, 23));
    assert!(maze::is_walkable_ghost(13, 23));
}

#[test]
fn initial_pellet_count_matches_tile_classes() {
    // Count the seeded tile classes straight off the maze and hold the seed
    // queries to them.
    let mut pellet_tiles = 0;
    let mut energizer_tiles = 0;
    for y in 0..31 {
        for x in 0..27 {
            let c = maze::tile(x, y);
            if c == maze::PATH || c == maze::INTERSECTION || c == maze::NO_UP {
                pellet_tiles += 1;
            }
            if c == maze::ENERGIZER {
                energizer_tiles += 1;
            }
        }
    }
    let pellets = maze::initial_pellets();
    let energizers = maze::initial_energizers();
    assert_eq!(pellets.len(), pellet_tiles);
    assert_eq!(energizers.len(), energizer_tiles);
    assert_eq!(pellets.len(), 283);
    assert_eq!(energizers.len(), 4);
}

#[test]
fn initial_energizer_positions() {
    let energizers = maze::initial_energizers();
    let expected = [(1, 3), (25, 3), (1, 23), (25, 23)];
    assert_eq!(energizers.len(), expected.len());
    for (x, y) in expected {
        assert!(energizers.iter().any(|p| p.x == x && p.y == y));
    }
}

#[test]
fn seed_positions_are_distinct_and_of_seed_class() {
    let pellets = maze::initial_pellets();
    for (i, p) in pellets.iter().enumerate() {
        let c = maze::tile(p.x, p.y);
        assert!(c == maze::PATH || c == maze::INTERSECTION || c == maze::NO_UP);
        for q in pellets.iter().skip(i + 1) {
            assert!(!(p.x == q.x && p.y == q.y));
        }
    }
}
