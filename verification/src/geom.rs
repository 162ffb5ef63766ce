use vstd::prelude::*;

verus! {

/// A tile coordinate on the maze grid: `x` is the column, `y` the row.
#[derive(Clone, Copy, PartialEq, Eq, Structural, Hash, Debug)]
pub struct Position {
    pub x: i32,
    pub y: i32,
}

/// One of the four cardinal movement directions.
#[derive(Clone, Copy, PartialEq, Eq, Structural, Hash, Debug)]
pub enum Direction {
    Left,
    Up,
    Right,
    Down,
}

impl Direction {
    /// The direction pointing the opposite way.
    pub open spec fn opposite_spec(self) -> Direction {
        match self {
            Direction::Left => Direction::Right,
            Direction::Right => Direction::Left,
            Direction::Up => Direction::Down,
            Direction::Down => Direction::Up,
        }
    }

    /// The direction a quarter turn clockwise from this one.
    pub open spec fn quarter_cw_spec(self) -> Direction {
        match self {
            Direction::Left => Direction::Up,
            Direction::Right => Direction::Down,
            Direction::Up => Direction::Right,
            Direction::Down => Direction::Left,
        }
    }

    /// The direction a quarter turn counterclockwise from this one.
    pub open spec fn quarter_ccw_spec(self) -> Direction {
        match self {
            Direction::Left => Direction::Down,
            Direction::Right => Direction::Up,
            Direction::Up => Direction::Left,
            Direction::Down => Direction::Right,
        }
    }

    pub fn opposite(self) -> (r: Direction)
        ensures
            r == self.opposite_spec(),
    {
        match self {
            Direction::Left => Direction::Right,
            Direction::Right => Direction::Left,
            Direction::Up => Direction::Down,
            Direction::Down => Direction::Up,
        }
    }

    pub fn quarter_cw(self) -> (r: Direction)
        ensures
            r == self.quarter_cw_spec(),
    {
        match self {
            Direction::Left => Direction::Up,
            Direction::Right => Direction::Down,
            Direction::Up => Direction::Right,
            Direction::Down => Direction::Left,
        }
    }

    pub fn quarter_ccw(self) -> (r: Direction)
        ensures
            r == self.quarter_ccw_spec(),
    {
        match self {
            Direction::Left => Direction::Down,
            Direction::Right => Direction::Up,
            Direction::Up => Direction::Left,
            Direction::Down => Direction::Right,
        }
    }
}

/// No direction is its own opposite, and taking the opposite twice returns
/// the original direction.
pub proof fn lemma_opposite_involution(d: Direction)
    ensures
        d.opposite_spec() != d,
        d.opposite_spec().opposite_spec() == d,
{
}

impl Position {
    pub fn new(x: i32, y: i32) -> (p: Position)
        ensures
            p.x == x,
            p.y == y,
    {
        Position { x, y }
    }

    /// The square of the Euclidean distance from `self` to `(x, y)`.
    ///
    /// Distances are only ever compared, never reported, and squaring is
    /// strictly monotone on non-negative reals, so comparing squares decides
    /// exactly what comparing the real-valued distances would.
    pub open spec fn dist_squared_spec(self, x: int, y: int) -> int {
        (self.y - y) * (self.y - y) + (self.x - x) * (self.x - x)
    }

    pub fn dist_squared(self, x: i32, y: i32) -> (d: u64)
        requires
            -1000 <= self.x <= 1000,
            -1000 <= self.y <= 1000,
            -1000 <= x <= 1000,
            -1000 <= y <= 1000,
        ensures
            d == self.dist_squared_spec(x as int, y as int),
    {
        let dy: i64 = self.y as i64 - y as i64;
        let dx: i64 = self.x as i64 - x as i64;
        assert(dy * dy + dx * dx <= 8000000 && dy * dy >= 0 && dx * dx >= 0)
            by (nonlinear_arith)
            requires
                -2000 <= dy <= 2000,
                -2000 <= dx <= 2000,
        ;
        (dy * dy + dx * dx) as u64
    }
}

} // verus!
