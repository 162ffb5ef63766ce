use vstd::prelude::*;

use crate::geom::{Direction, Position};
use crate::maze;

verus! {

/// The set of direction keys pressed during one frame.
#[derive(Clone, Copy, PartialEq, Eq, Structural, Debug)]
pub struct InputSnapshot {
    pub left: bool,
    pub right: bool,
    pub up: bool,
    pub down: bool,
}

impl InputSnapshot {
    pub fn none() -> (i: InputSnapshot)
        ensures
            i == (InputSnapshot { left: false, right: false, up: false, down: false }),
    {
        InputSnapshot { left: false, right: false, up: false, down: false }
    }
}

/// The player agent. `last` is the tile occupied before the most recent
/// movement phase; it is the only tile considered for pellet consumption.
#[derive(Clone, Copy, PartialEq, Eq, Structural, Debug)]
pub struct Player {
    pub direction: Direction,
    pub position: Position,
    pub last: Position,
}

/// The direction the player intends this tick: the first pressed key in the
/// priority order Left, Down, Up, Right, or the current direction when no
/// key is pressed.
pub open spec fn intended_direction(cur: Direction, input: InputSnapshot) -> Direction {
    if input.left {
        Direction::Left
    } else if input.down {
        Direction::Down
    } else if input.up {
        Direction::Up
    } else if input.right {
        Direction::Right
    } else {
        cur
    }
}

/// One attempted step down: taken only when the tile below is walkable by
/// the player.
pub open spec fn try_down(p: Position) -> Position {
    if maze::player_walkable(p.x as int, p.y + 1) {
        Position { x: p.x, y: (p.y + 1) as i32 }
    } else {
        p
    }
}

/// One attempted step up: taken only when the tile above is walkable by
/// the player.
pub open spec fn try_up(p: Position) -> Position {
    if maze::player_walkable(p.x as int, p.y - 1) {
        Position { x: p.x, y: (p.y - 1) as i32 }
    } else {
        p
    }
}

/// One attempted step right, with the tunnel rule: from the right end of the
/// tunnel row the player wraps to column zero.
pub open spec fn try_right(p: Position) -> Position {
    if maze::player_walkable(p.x + 1, p.y as int) {
        Position { x: (p.x + 1) as i32, y: p.y }
    } else if p.y == maze::TUNNEL_ROW && p.x + 1 == maze::WIDTH {
        Position { x: 0, y: p.y }
    } else {
        p
    }
}

/// One attempted step left, with the tunnel rule: from the left end of the
/// tunnel row the player wraps to the rightmost column.
pub open spec fn try_left(p: Position) -> Position {
    if maze::player_walkable(p.x - 1, p.y as int) {
        Position { x: (p.x - 1) as i32, y: p.y }
    } else if p.y == maze::TUNNEL_ROW && p.x == 0 {
        Position { x: (maze::WIDTH - 1) as i32, y: p.y }
    } else {
        p
    }
}

/// The player's position after one movement phase: every pressed key is
/// attempted, in the fixed order Down, Up, Right, Left, each attempt starting
/// from where the previous one ended, so later keys may override earlier
/// moves.
pub open spec fn step_position(p: Position, input: InputSnapshot) -> Position {
    let p1 = if input.down {
        try_down(p)
    } else {
        p
    };
    let p2 = if input.up {
        try_up(p1)
    } else {
        p1
    };
    let p3 = if input.right {
        try_right(p2)
    } else {
        p2
    };
    if input.left {
        try_left(p3)
    } else {
        p3
    }
}

/// A single attempted step keeps the player on a player-walkable tile:
/// a move lands on a walkable tile by construction, and the tunnel wrap
/// lands on the open tunnel ends.
proof fn lemma_try_walkable(p: Position, input: InputSnapshot)
    requires
        maze::player_walkable(p.x as int, p.y as int),
    ensures
        maze::player_walkable(try_down(p).x as int, try_down(p).y as int),
        maze::player_walkable(try_up(p).x as int, try_up(p).y as int),
        maze::player_walkable(try_right(p).x as int, try_right(p).y as int),
        maze::player_walkable(try_left(p).x as int, try_left(p).y as int),
{
    assert(maze::tile_spec(0, 14) == maze::PATH);
    assert(maze::tile_spec(26, 14) == maze::PATH);
}

/// The whole movement phase keeps the player on a player-walkable tile, so
/// in particular the player never lands on a wall and never enters the pen.
pub proof fn lemma_step_position_walkable(p: Position, input: InputSnapshot)
    requires
        maze::player_walkable(p.x as int, p.y as int),
    ensures
        maze::player_walkable(
            step_position(p, input).x as int,
            step_position(p, input).y as int,
        ),
{
    let p1 = if input.down {
        try_down(p)
    } else {
        p
    };
    let p2 = if input.up {
        try_up(p1)
    } else {
        p1
    };
    let p3 = if input.right {
        try_right(p2)
    } else {
        p2
    };
    lemma_try_walkable(p, input);
    lemma_try_walkable(p1, input);
    lemma_try_walkable(p2, input);
    lemma_try_walkable(p3, input);
}

/// The whole player turn: the direction turns to the intended one, the tile
/// left behind is recorded, and the pressed keys are attempted in order.
pub open spec fn stepped(pl: Player, input: InputSnapshot) -> Player {
    Player {
        direction: intended_direction(pl.direction, input),
        last: pl.position,
        position: step_position(pl.position, input),
    }
}

impl Player {
    /// The player as it stands when the game starts.
    pub open spec fn initial_spec() -> Player {
        Player {
            direction: Direction::Right,
            position: Position { x: 13, y: 23 },
            last: Position { x: 13, y: 23 },
        }
    }

    pub fn initial() -> (p: Player)
        ensures
            p == Player::initial_spec(),
    {
        Player {
            direction: Direction::Right,
            position: Position { x: 13, y: 23 },
            last: Position { x: 13, y: 23 },
        }
    }

    /// One firing of the player-move gate: the direction turns to the
    /// intended one, the left tile is recorded for consumption, and every
    /// pressed key is attempted in the fixed order Down, Up, Right, Left.
    pub fn step(&mut self, input: InputSnapshot)
        requires
            maze::in_bounds(old(self).position.x as int, old(self).position.y as int),
        ensures
            final(self).direction == intended_direction(old(self).direction, input),
            final(self).last == old(self).position,
            final(self).position == step_position(old(self).position, input),
    {
        self.direction = if input.left {
            Direction::Left
        } else if input.down {
            Direction::Down
        } else if input.up {
            Direction::Up
        } else if input.right {
            Direction::Right
        } else {
            self.direction
        };

        self.last = self.position;

        if input.down {
            if maze::is_walkable_player(self.position.x, self.position.y + 1) {
                self.position.y = self.position.y + 1;
            }
        }
        if input.up {
            if maze::is_walkable_player(self.position.x, self.position.y - 1) {
                self.position.y = self.position.y - 1;
            }
        }
        if input.right {
            if maze::is_walkable_player(self.position.x + 1, self.position.y) {
                self.position.x = self.position.x + 1;
            } else if self.position.y == maze::TUNNEL_ROW && self.position.x + 1 == maze::WIDTH {
                self.position.x = 0;
            }
        }
        if input.left {
            if maze::is_walkable_player(self.position.x - 1, self.position.y) {
                self.position.x = self.position.x - 1;
            } else if self.position.y == maze::TUNNEL_ROW && self.position.x == 0 {
                self.position.x = maze::WIDTH - 1;
            }
        }
    }
}

} // verus!
