use maze_chase::geom::{Direction, Position};
use maze_chase::maze;
use maze_chase::player::{InputSnapshot, Player};

fn pos(x: i32, y: i32) -> Position {
    Position::new(x, y)
}

fn keys(left: bool, right: bool, up: bool, down: bool) -> InputSnapshot {
    InputSnapshot { left, right, up, down }
}

#[test]
fn initial_player_state() {
    let p = Player::initial();
    assert_eq!(p.position, pos(13, 23));
    assert_eq!(p.last, pos(13, 23));
    assert_eq!(p.direction, Direction::Right);
}

#[test]
fn tunnel_wrap_right_and_back() {
    let mut p = Player { direction: Direction::Right, position: pos(26, 14), last: pos(26, 14) };
    p.step(keys(false, true, false, false));
    assert_eq!(p.position, pos(0, 14));
    assert_eq!(p.last, pos(26, 14));
    assert_eq!(p.direction, Direction::Right);

    let mut q = Player { direction: Direction::Left, position: pos(0, 14), last: pos(0, 14) };
    q.step(keys(true, false, false, false));
    assert_eq!(q.position, pos(26, 14));
    assert_eq!(q.last, pos(0, 14));
    assert_eq!(q.direction, Direction::Left);
}

#[test]
fn intended_direction_priority_order() {
    // All four keys pressed: Left wins the direction.
    let mut p = Player::initial();
    p.step(keys(true, true, true, true));
    assert_eq!(p.direction, Direction::Left);
    // Down beats Up and Right.
    let mut q = Player::initial();
    q.step(keys(false, true, true, true));
    assert_eq!(q.direction, Direction::Down);
    // Up beats Right.
    let mut r = Player::initial();
    r.step(keys(false, true, true, false));
    assert_eq!(r.direction, Direction::Up);
    // No key pressed: direction unchanged.
    let mut s = Player::initial();
    s.step(keys(false, false, false, false));
    assert_eq!(s.direction, Direction::Right);
    assert_eq!(s.position, pos(13, 23));
}

#[test]
fn simultaneous_keys_move_per_axis() {
    // At (1,4) both Down and Right are open, and the right neighbour of the
    // tile below is open too: pressing Down and Right together lands one
    // step diagonally, because the attempts chain in the order Down, Up,
    // Right, Left.
    assert_eq!(maze::tile(1, 4), maze::PATH);
    assert!(maze::is_walkable_player(1, 5));
    assert!(maze::is_walkable_player(2, 5));
    let mut p = Player { direction: Direction::Right, position: pos(1, 4), last: pos(1, 4) };
    p.step(keys(false, true, false, true));
    assert_eq!(p.position, pos(2, 5));
    assert_eq!(p.last, pos(1, 4));
    assert_eq!(p.direction, Direction::Down);
}

#[test]
fn blocked_moves_are_silently_ignored() {
    // From the spawn, Down and Up face walls: nothing happens to the
    // position, the direction still turns.
    let mut p = Player::initial();
    p.step(keys(false, false, false, true));
    assert_eq!(p.position, pos(13, 23));
    assert_eq!(p.direction, Direction::Down);
    assert_eq!(p.last, pos(13, 23));
}

#[test]
fn player_cannot_enter_the_gate() {
    // From (13,11), pressing Down faces the pen gate tile (13,12): the player
    // may not enter the pen, so the move is refused.
    let mut p = Player { direction: Direction::Left, position: pos(13, 11), last: pos(13, 11) };
    p.step(keys(false, false, false, true));
    assert_eq!(p.position, pos(13, 11));
}

#[test]
fn player_walk_never_lands_on_wall() {
    // Scripted random-ish walk: whatever is pressed, the player stays on
    // player-walkable tiles.
    let mut p = Player::initial();
    let script = [
        keys(true, false, false, false),
        keys(false, false, true, false),
        keys(false, true, false, true),
        keys(false, false, false, true),
        keys(true, false, true, false),
        keys(false, true, false, false),
    ];
    for t in 0..600usize {
        p.step(script[t % script.len()]);
        let c = maze::tile(p.position.x, p.position.y);
        assert_ne!(c, maze::WALL);
        assert_ne!(c, maze::GATE);
    }
}
