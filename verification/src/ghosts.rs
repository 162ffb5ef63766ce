use vstd::prelude::*;

use crate::geom::{Direction, Position};
use crate::maze;
use crate::mode::Mode;

verus! {

/// A ghost agent. `target` is the tile it currently heads for and
/// `scatter_target` its fixed home corner.
#[derive(Clone, Copy, PartialEq, Eq, Structural, Debug)]
pub struct GhostAgent {
    pub direction: Direction,
    pub position: Position,
    pub target: Position,
    pub scatter_target: Position,
}

/// Column of the neighbouring tile one step from `p` in direction `c`.
pub open spec fn neighbor_x(p: Position, c: Direction) -> int {
    match c {
        Direction::Left => p.x - 1,
        Direction::Right => p.x + 1,
        Direction::Up => p.x as int,
        Direction::Down => p.x as int,
    }
}

/// Row of the neighbouring tile one step from `p` in direction `c`.
pub open spec fn neighbor_y(p: Position, c: Direction) -> int {
    match c {
        Direction::Left => p.y as int,
        Direction::Right => p.y as int,
        Direction::Up => p.y - 1,
        Direction::Down => p.y + 1,
    }
}

/// The tile just above the pen gate; a ghost standing inside the pen or on
/// the pen gate heads here to force its egress.
pub open spec fn pen_exit() -> Position {
    Position { x: 13, y: 11 }
}

/// The target a ghost actually heads for this tick: standing on the pen gate or
/// on the pen floor overrides the target to the pen exit.
pub open spec fn effective_target(p: Position, target: Position) -> Position {
    if maze::tile_spec(p.x as int, p.y as int) == maze::GATE || maze::tile_spec(
        p.x as int,
        p.y as int,
    ) == maze::PEN {
        pen_exit()
    } else {
        target
    }
}

/// Whether a ghost that arrived at `p` moving in direction `d` may choose
/// `c` as its next direction: never the reversal of `d`, never off the grid
/// or into a wall, never up into a no-up tile, and never down through the
/// gate.
pub open spec fn dir_allowed(p: Position, d: Direction, c: Direction) -> bool {
    let nx = neighbor_x(p, c);
    let ny = neighbor_y(p, c);
    c != d.opposite_spec() && maze::in_bounds(nx, ny) && maze::tile_spec(nx, ny) != maze::WALL && !(
    c == Direction::Up && maze::tile_spec(nx, ny) == maze::NO_UP) && !(c == Direction::Down
        && maze::tile_spec(nx, ny) == maze::GATE)
}

/// The squared distance from the neighbour of `p` in direction `c` to the
/// target `t`.
pub open spec fn cand_dist2(p: Position, t: Position, c: Direction) -> int {
    t.dist_squared_spec(neighbor_x(p, c), neighbor_y(p, c))
}

/// The evaluation order of the four candidate directions; earlier
/// directions win distance ties.
pub open spec fn dir_rank(c: Direction) -> int {
    match c {
        Direction::Up => 0,
        Direction::Left => 1,
        Direction::Down => 2,
        Direction::Right => 3,
    }
}

/// A candidate distance strictly larger than any squared distance between
/// two on-grid tiles, standing for "no candidate accepted yet".
pub const FAR: u64 = 99999;

/// Weighs one candidate direction against the best found so far: an allowed
/// candidate strictly closer to the target than the current best replaces
/// it.
pub open spec fn consider(
    p: Position,
    d: Direction,
    t: Position,
    best: (Position, Direction, int),
    c: Direction,
) -> (Position, Direction, int) {
    if dir_allowed(p, d, c) && cand_dist2(p, t, c) < best.2 {
        (
            Position { x: neighbor_x(p, c) as i32, y: neighbor_y(p, c) as i32 },
            c,
            cand_dist2(p, t, c),
        )
    } else {
        best
    }
}

/// The tile and direction a ghost at `p`, arrived moving in `d` and heading
/// for `target`, picks next: the four candidates are weighed in the order
/// Up, Left, Down, Right and the allowed one closest to the effective target
/// wins, earlier candidates winning ties. When no candidate is allowed the
/// ghost stays in place and keeps its direction.
pub open spec fn choice(p: Position, d: Direction, target: Position) -> (Position, Direction) {
    let t = effective_target(p, target);
    let b0 = (p, d, FAR as int);
    let b1 = consider(p, d, t, b0, Direction::Up);
    let b2 = consider(p, d, t, b1, Direction::Left);
    let b3 = consider(p, d, t, b2, Direction::Down);
    let b4 = consider(p, d, t, b3, Direction::Right);
    (b4.0, b4.1)
}

/// The tunnel rule for ghosts: a chosen tile at either end of the tunnel
/// row lands the ghost at the opposite end.
pub open spec fn wrap(p: Position) -> Position {
    if p.y == maze::TUNNEL_ROW && p.x == maze::WIDTH - 1 {
        Position { x: 0, y: p.y }
    } else if p.y == maze::TUNNEL_ROW && p.x == 0 {
        Position { x: (maze::WIDTH - 1) as i32, y: p.y }
    } else {
        p
    }
}

/// The target a ghost adopts when the ghost gate fires: its scatter corner
/// in scatter mode, the player's position in either chase mode.
pub open spec fn updated_target(g: GhostAgent, mode: Mode, player_pos: Position) -> Position {
    if mode == Mode::Scatter {
        g.scatter_target
    } else {
        player_pos
    }
}

/// A whole ghost turn: adopt the target for the current mode, pick the next
/// tile, turn into its direction and move there, wrapping through the
/// tunnel.
pub open spec fn stepped(g: GhostAgent, mode: Mode, player_pos: Position) -> GhostAgent {
    let t = updated_target(g, mode, player_pos);
    let c = choice(g.position, g.direction, t);
    GhostAgent { direction: c.1, position: wrap(c.0), target: t, scatter_target: g.scatter_target }
}

fn dir_allowed_exec(p: Position, d: Direction, c: Direction) -> (b: bool)
    requires
        maze::in_bounds(p.x as int, p.y as int),
    ensures
        b == dir_allowed(p, d, c),
{
    let (nx, ny): (i32, i32) = match c {
        Direction::Left => (p.x - 1, p.y),
        Direction::Right => (p.x + 1, p.y),
        Direction::Up => (p.x, p.y - 1),
        Direction::Down => (p.x, p.y + 1),
    };
    if c == d.opposite() {
        return false;
    }
    if !(0 <= nx && nx < maze::WIDTH && 0 <= ny && ny < maze::HEIGHT) {
        return false;
    }
    let tc = maze::tile(nx, ny);
    if tc == maze::WALL {
        return false;
    }
    if c == Direction::Up && tc == maze::NO_UP {
        return false;
    }
    if c == Direction::Down && tc == maze::GATE {
        return false;
    }
    true
}

/// Picks the next tile and direction for a ghost at `p` that arrived moving
/// in `d` and heads for `target`.
pub fn choose_next_tile(p: Position, d: Direction, target: Position) -> (r: (Position, Direction))
    requires
        maze::in_bounds(p.x as int, p.y as int),
        maze::in_bounds(target.x as int, target.y as int),
    ensures
        r == choice(p, d, target),
{
    let tc = maze::tile(p.x, p.y);
    let t: Position = if tc == maze::GATE || tc == maze::PEN {
        Position { x: 13, y: 11 }
    } else {
        target
    };

    let mut best_pos: Position = p;
    let mut best_dir: Direction = d;
    let mut best_d2: u64 = FAR;

    if dir_allowed_exec(p, d, Direction::Up) {
        let d2 = t.dist_squared(p.x, p.y - 1);
        if d2 < best_d2 {
            best_pos = Position { x: p.x, y: p.y - 1 };
            best_dir = Direction::Up;
            best_d2 = d2;
        }
    }
    if dir_allowed_exec(p, d, Direction::Left) {
        let d2 = t.dist_squared(p.x - 1, p.y);
        if d2 < best_d2 {
            best_pos = Position { x: p.x - 1, y: p.y };
            best_dir = Direction::Left;
            best_d2 = d2;
        }
    }
    if dir_allowed_exec(p, d, Direction::Down) {
        let d2 = t.dist_squared(p.x, p.y + 1);
        if d2 < best_d2 {
            best_pos = Position { x: p.x, y: p.y + 1 };
            best_dir = Direction::Down;
            best_d2 = d2;
        }
    }
    if dir_allowed_exec(p, d, Direction::Right) {
        let d2 = t.dist_squared(p.x + 1, p.y);
        if d2 < best_d2 {
            best_pos = Position { x: p.x + 1, y: p.y };
            best_dir = Direction::Right;
            best_d2 = d2;
        }
    }
    (best_pos, best_dir)
}

impl GhostAgent {
    /// A ghost is well formed when it stands on a ghost-walkable tile and
    /// both of its targets lie on the grid.
    pub open spec fn wf(self) -> bool {
        maze::ghost_walkable(self.position.x as int, self.position.y as int) && maze::in_bounds(
            self.target.x as int,
            self.target.y as int,
        ) && maze::in_bounds(self.scatter_target.x as int, self.scatter_target.y as int)
    }

    /// One firing of the ghost gate: adopt the mode's target, then move.
    pub fn advance(&mut self, mode: Mode, player_pos: Position)
        requires
            old(self).wf(),
            maze::in_bounds(player_pos.x as int, player_pos.y as int),
        ensures
            *final(self) == stepped(*old(self), mode, player_pos),
            final(self).wf(),
    {
        if mode == Mode::Scatter {
            self.target = self.scatter_target;
        } else {
            self.target = player_pos;
        }
        let (next, dir) = choose_next_tile(self.position, self.direction, self.target);
        self.direction = dir;
        if next.y == maze::TUNNEL_ROW && next.x == maze::WIDTH - 1 {
            self.position = Position { x: 0, y: next.y };
        } else if next.y == maze::TUNNEL_ROW && next.x == 0 {
            self.position = Position { x: maze::WIDTH - 1, y: next.y };
        } else {
            self.position = next;
        }
        proof {
            lemma_stepped_wf(*old(self), mode, player_pos);
        }
    }
}

/// Every squared distance a ghost weighs is below the `FAR` sentinel.
proof fn lemma_cand_dist2_bounds(p: Position, d: Direction, t: Position)
    requires
        maze::in_bounds(p.x as int, p.y as int),
        maze::in_bounds(t.x as int, t.y as int),
    ensures
        forall|c: Direction|
            #[trigger] dir_allowed(p, d, c) ==> 0 <= cand_dist2(p, t, c) < FAR as int,
{
    assert forall|c: Direction| #[trigger] dir_allowed(p, d, c) implies 0 <= cand_dist2(p, t, c)
        < FAR as int by {
        let nx = neighbor_x(p, c);
        let ny = neighbor_y(p, c);
        assert(0 <= (t.y - ny) * (t.y - ny) + (t.x - nx) * (t.x - nx) < 99999)
            by (nonlinear_arith)
            requires
                -31 <= t.y - ny <= 31,
                -27 <= t.x - nx <= 27,
        ;
    }
}

/// What the greedy choice guarantees.
///
/// - When at least one direction is allowed, the ghost moves one tile in an
///   allowed direction at minimal squared distance to the effective target,
///   and among equally close allowed directions it picks the earliest in the
///   order Up, Left, Down, Right.
/// - When no direction is allowed, it stays in place and keeps its
///   direction.
/// - The chosen direction is never the reversal of the arrival direction.
/// - It never steps up into a no-up tile, and never steps down into the
///   gate.
pub proof fn lemma_choice_characterization(p: Position, d: Direction, target: Position)
    requires
        maze::in_bounds(p.x as int, p.y as int),
        maze::in_bounds(target.x as int, target.y as int),
    ensures
        ({
            let t = effective_target(p, target);
            let np = choice(p, d, target).0;
            let nd = choice(p, d, target).1;
            &&& ((exists|c: Direction| dir_allowed(p, d, c)) ==> {
                &&& dir_allowed(p, d, nd)
                &&& np.x == neighbor_x(p, nd)
                &&& np.y == neighbor_y(p, nd)
                &&& forall|c: Direction|
                    #[trigger] dir_allowed(p, d, c) ==> cand_dist2(p, t, nd) <= cand_dist2(p, t, c)
                &&& forall|c: Direction|
                    #[trigger] dir_allowed(p, d, c) && cand_dist2(p, t, c) == cand_dist2(p, t, nd)
                        ==> dir_rank(nd) <= dir_rank(c)
            })
            &&& ((!exists|c: Direction| dir_allowed(p, d, c)) ==> np == p && nd == d)
            &&& nd != d.opposite_spec()
            &&& ((nd == Direction::Up && np != p) ==> maze::tile_spec(np.x as int, np.y as int)
                != maze::NO_UP)
            &&& ((nd == Direction::Down && np != p) ==> maze::tile_spec(np.x as int, np.y as int)
                != maze::GATE)
        }),
{
    let t = effective_target(p, target);
    lemma_cand_dist2_bounds(p, d, t);
    if exists|c: Direction| dir_allowed(p, d, c) {
        assert(dir_allowed(p, d, Direction::Up) || dir_allowed(p, d, Direction::Left)
            || dir_allowed(p, d, Direction::Down) || dir_allowed(p, d, Direction::Right)) by {
            let c = choose|c: Direction| dir_allowed(p, d, c);
            assert(c == Direction::Up || c == Direction::Left || c == Direction::Down || c
                == Direction::Right);
        }
        let np = choice(p, d, target).0;
        let nd = choice(p, d, target).1;
        assert(dir_allowed(p, d, nd) && np.x == neighbor_x(p, nd) && np.y == neighbor_y(p, nd));
        assert forall|c: Direction| #[trigger] dir_allowed(p, d, c) implies cand_dist2(p, t, nd)
            <= cand_dist2(p, t, c) by {
            assert(c == Direction::Up || c == Direction::Left || c == Direction::Down || c
                == Direction::Right);
        }
        assert forall|c: Direction|
            #[trigger] dir_allowed(p, d, c) && cand_dist2(p, t, c) == cand_dist2(
                p,
                t,
                nd,
            ) implies dir_rank(nd) <= dir_rank(c) by {
            assert(c == Direction::Up || c == Direction::Left || c == Direction::Down || c
                == Direction::Right);
        }
    }
}

/// A ghost standing on the pen gate or on the pen floor heads for the pen exit
/// above the pen gate this tick, whatever target the mode set.
pub proof fn lemma_pen_override(p: Position, target: Position)
    requires
        maze::tile_spec(p.x as int, p.y as int) == maze::GATE || maze::tile_spec(
            p.x as int,
            p.y as int,
        ) == maze::PEN,
    ensures
        effective_target(p, target) == pen_exit(),
{
}

/// A ghost's turn in scatter mode adopts its scatter corner as target.
pub proof fn lemma_scatter_adopts_corner(g: GhostAgent, player_pos: Position)
    ensures
        stepped(g, Mode::Scatter, player_pos).target == g.scatter_target,
        stepped(g, Mode::Scatter, player_pos).scatter_target == g.scatter_target,
{
}

/// The movement laws of a whole ghost turn.
///
/// - Ban on reversal: the direction after the turn is never the opposite of
///   the direction before it; when every non-reversal candidate is rejected
///   the ghost does not move and keeps its direction.
/// - Direction filters, seen on the tile reached: a ghost that moved up
///   does not stand on a no-up tile, and one that moved down does not stand
///   on the pen gate.
///
/// One family of states is left out: a ghost standing on a tunnel-end tile
/// with no allowed candidate, for which the tunnel rule rewrites even the
/// stationary choice to the opposite end. A ghost only ever reaches an end
/// tile facing along the tunnel, where moving on is allowed, so the premise
/// holds of every reachable state.
pub proof fn lemma_stepped_movement_laws(g: GhostAgent, mode: Mode, player_pos: Position)
    requires
        g.wf(),
        maze::in_bounds(player_pos.x as int, player_pos.y as int),
        wrap(g.position) == g.position || exists|c: Direction|
            dir_allowed(g.position, g.direction, c),
    ensures
        ({
            let g2 = stepped(g, mode, player_pos);
            &&& g2.direction != g.direction.opposite_spec()
            &&& ((!exists|c: Direction| dir_allowed(g.position, g.direction, c)) ==> g2.position
                == g.position && g2.direction == g.direction)
            &&& (g2.position != g.position ==> dir_allowed(g.position, g.direction, g2.direction))
            &&& ((g2.direction == Direction::Up && g2.position != g.position) ==> maze::tile_spec(
                g2.position.x as int,
                g2.position.y as int,
            ) != maze::NO_UP)
            &&& ((g2.direction == Direction::Down && g2.position != g.position)
                ==> maze::tile_spec(g2.position.x as int, g2.position.y as int) != maze::GATE)
        }),
{
    let t = updated_target(g, mode, player_pos);
    lemma_choice_characterization(g.position, g.direction, t);
    assert(maze::tile_spec(0, 14) == maze::PATH);
    assert(maze::tile_spec(26, 14) == maze::PATH);
}

/// A ghost's turn keeps it well formed; in particular it never lands on a
/// wall tile.
pub proof fn lemma_stepped_wf(g: GhostAgent, mode: Mode, player_pos: Position)
    requires
        g.wf(),
        maze::in_bounds(player_pos.x as int, player_pos.y as int),
    ensures
        stepped(g, mode, player_pos).wf(),
{
    assert(maze::tile_spec(0, 14) == maze::PATH);
    assert(maze::tile_spec(26, 14) == maze::PATH);
}

} // verus!
