use maze_chase::geom::{Direction, Position};
use maze_chase::ghosts::{choose_next_tile, GhostAgent};
use maze_chase::maze;
use maze_chase::mode::Mode;

fn pos(x: i32, y: i32) -> Position {
    Position::new(x, y)
}

#[test]
fn red_ghost_scatter_start() {
    // Red at (13,11) facing Left with target (1,1): up is a wall, down is
    // the pen gate, right is the reversal; it must go left to (12,11).
    let (next, dir) = choose_next_tile(pos(13, 11), Direction::Left, pos(1, 1));
    assert_eq!(next, pos(12, 11));
    assert_eq!(dir, Direction::Left);
}

#[test]
fn pen_egress_heads_for_the_gate() {
    // On the pen floor the effective target is the pen exit (13,11), and
    // the pen gate is traversable upward: from (13,14) the ghost must step up
    // onto the pen gate tile (13,13).
    let (next, dir) = choose_next_tile(pos(13, 14), Direction::Up, pos(25, 29));
    assert_eq!(next, pos(13, 13));
    assert_eq!(dir, Direction::Up);
}

#[test]
fn no_down_through_gate() {
    // At (13,12), facing Down: down leads into the pen gate tile (13,13) and is
    // filtered, left and right are walls, up is the reversal. Nothing is
    // allowed, so the ghost stays in place; in particular it never descends
    // through the pen gate.
    let (next, dir) = choose_next_tile(pos(13, 12), Direction::Down, pos(13, 23));
    assert_eq!(next, pos(13, 12));
    assert_eq!(dir, Direction::Down);
}

#[test]
fn ghost_tunnel_wrap_right_edge() {
    // At (25,14) facing Right only Right is open; the chosen tile (26,14)
    // is the right tunnel end, so the ghost comes out at (0,14).
    let mut g = GhostAgent {
        direction: Direction::Right,
        position: pos(25, 14),
        target: pos(1, 14),
        scatter_target: pos(25, 1),
    };
    g.advance(Mode::Chase1, pos(1, 14));
    assert_eq!(g.position, pos(0, 14));
    assert_eq!(g.direction, Direction::Right);
}

#[test]
fn ghost_tunnel_wrap_left_edge() {
    // Mirror case: at (1,14) facing Left only Left is open; the chosen tile
    // (0,14) is the left tunnel end, so the ghost comes out at (26,14).
    let mut g = GhostAgent {
        direction: Direction::Left,
        position: pos(1, 14),
        target: pos(25, 14),
        scatter_target: pos(25, 1),
    };
    g.advance(Mode::Chase1, pos(25, 14));
    assert_eq!(g.position, pos(26, 14));
    assert_eq!(g.direction, Direction::Left);
}

#[test]
fn scatter_turn_adopts_corner() {
    let mut g = GhostAgent {
        direction: Direction::Left,
        position: pos(13, 11),
        target: pos(20, 20),
        scatter_target: pos(1, 1),
    };
    g.advance(Mode::Scatter, pos(13, 23));
    assert_eq!(g.target, pos(1, 1));
}

#[test]
fn chase_turn_adopts_player_position() {
    for mode in [Mode::Chase1, Mode::Chase2] {
        let mut g = GhostAgent {
            direction: Direction::Left,
            position: pos(13, 11),
            target: pos(1, 1),
            scatter_target: pos(1, 1),
        };
        g.advance(mode, pos(9, 20));
        assert_eq!(g.target, pos(9, 20));
    }
}

#[test]
fn ghost_run_never_reverses_and_respects_filters() {
    // Drive the four ghosts from their spawns for many turns under a mode
    // that flips between scatter and chase; on every turn check the ban on
    // reversal, that nobody stands on a wall, and the up/down tile filters.
    let mut ghosts = vec![
        GhostAgent {
            direction: Direction::Left,
            position: pos(13, 11),
            target: pos(1, 1),
            scatter_target: pos(1, 1),
        },
        GhostAgent {
            direction: Direction::Up,
            position: pos(13, 14),
            target: pos(25, 1),
            scatter_target: pos(25, 1),
        },
        GhostAgent {
            direction: Direction::Down,
            position: pos(12, 14),
            target: pos(1, 29),
            scatter_target: pos(1, 29),
        },
        GhostAgent {
            direction: Direction::Down,
            position: pos(14, 14),
            target: pos(25, 29),
            scatter_target: pos(25, 29),
        },
    ];
    let player_spots = [pos(13, 23), pos(1, 1), pos(25, 29), pos(1, 14), pos(26, 14)];
    for t in 0..500usize {
        let mode = match (t / 40) % 3 {
            0 => Mode::Scatter,
            1 => Mode::Chase1,
            _ => Mode::Chase2,
        };
        let ppos = player_spots[t % player_spots.len()];
        for g in ghosts.iter_mut() {
            let before_pos = g.position;
            let before_dir = g.direction;
            g.advance(mode, ppos);
            // Never on a wall.
            assert_ne!(maze::tile(g.position.x, g.position.y), maze::WALL);
            if g.position != before_pos {
                // Ban on reversal.
                assert_ne!(g.direction, before_dir.opposite());
                // Never up into a no-up tile, never down into the pen gate.
                if g.direction == Direction::Up {
                    assert_ne!(maze::tile(g.position.x, g.position.y), maze::NO_UP);
                }
                if g.direction == Direction::Down {
                    assert_ne!(maze::tile(g.position.x, g.position.y), maze::GATE);
                }
            } else {
                // A stationary ghost keeps its direction.
                assert_eq!(g.direction, before_dir);
            }
        }
    }
}
