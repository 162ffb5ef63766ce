use maze_chase::geom::{Direction, Position};

#[test]
fn opposite_of_each_direction() {
    assert_eq!(Direction::Left.opposite(), Direction::Right);
    assert_eq!(Direction::Right.opposite(), Direction::Left);
    assert_eq!(Direction::Up.opposite(), Direction::Down);
    assert_eq!(Direction::Down.opposite(), Direction::Up);
}

#[test]
fn quarter_turns() {
    assert_eq!(Direction::Left.quarter_cw(), Direction::Up);
    assert_eq!(Direction::Up.quarter_cw(), Direction::Right);
    assert_eq!(Direction::Right.quarter_cw(), Direction::Down);
    assert_eq!(Direction::Down.quarter_cw(), Direction::Left);
    assert_eq!(Direction::Left.quarter_ccw(), Direction::Down);
    assert_eq!(Direction::Down.quarter_ccw(), Direction::Right);
    assert_eq!(Direction::Right.quarter_ccw(), Direction::Up);
    assert_eq!(Direction::Up.quarter_ccw(), Direction::Left);
}

#[test]
fn quarter_turns_compose_to_opposite() {
    for d in [Direction::Left, Direction::Right, Direction::Up, Direction::Down] {
        assert_eq!(d.quarter_cw().quarter_cw(), d.opposite());
        assert_eq!(d.quarter_ccw().quarter_ccw(), d.opposite());
        assert_eq!(d.quarter_cw().quarter_ccw(), d);
    }
}

#[test]
fn dist_squared_exact_values() {
    let p = Position::new(1, 1);
    assert_eq!(p.dist_squared(4, 5), 25);
    assert_eq!(p.dist_squared(1, 1), 0);
    assert_eq!(Position::new(13, 11).dist_squared(12, 11), 1);
    // 3-4-5 triangle scaled and shifted
    assert_eq!(Position::new(0, 0).dist_squared(6, 8), 100);
}
