use vstd::prelude::*;

use crate::geom::Position;

verus! {

/// Number of columns in the maze grid.
pub const WIDTH: i32 = 27;

/// Number of rows in the maze grid.
pub const HEIGHT: i32 = 31;

/// Row of the horizontal wraparound tunnel.
pub const TUNNEL_ROW: i32 = 14;

/// Tile class: open path, holds a pellet at game start.
pub const PATH: u8 = 0;

/// Tile class: wall, never walkable.
pub const WALL: u8 = 1;

/// Tile class: open path holding an energizer at game start.
pub const ENERGIZER: u8 = 2;

/// Tile class: the pen gate; ghosts may cross it upward but never downward.
pub const GATE: u8 = 3;

/// Tile class: walkable intersection marker, holds a pellet at game start.
pub const INTERSECTION: u8 = 4;

/// Tile class: walkable path where ghosts may not choose to move up,
/// holds a pellet at game start.
pub const NO_UP: u8 = 5;

/// Tile class: the ghost pen floor, walkable by ghosts only.
pub const PEN: u8 = 9;

pub open spec fn row0() -> Seq<u8> {
    seq![1u8, 1, 1, 1, 1, 1, 1, 1, 1, 1, 1, 1, 1, 1, 1, 1, 1, 1, 1, 1, 1, 1, 1, 1, 1, 1, 1]
}

pub open spec fn row1() -> Seq<u8> {
    seq![1u8, 0, 0, 0, 0, 0, 4, 0, 0, 0, 0, 0, 1, 1, 1, 0, 0, 0, 0, 0, 4, 0, 0, 0, 0, 0, 1]
}

pub open spec fn row2() -> Seq<u8> {
    seq![1u8, 0, 1, 1, 1, 1, 0, 1, 1, 1, 1, 0, 1, 1, 1, 0, 1, 1, 1, 1, 0, 1, 1, 1, 1, 0, 1]
}

pub open spec fn row3() -> Seq<u8> {
    seq![1u8, 2, 1, 1, 1, 1, 0, 1, 1, 1, 1, 0, 1, 1, 1, 0, 1, 1, 1, 1, 0, 1, 1, 1, 1, 2, 1]
}

pub open spec fn row4() -> Seq<u8> {
    seq![1u8, 0, 1, 1, 1, 1, 0, 1, 1, 1, 1, 0, 1, 1, 1, 0, 1, 1, 1, 1, 0, 1, 1, 1, 1, 0, 1]
}

pub open spec fn row5() -> Seq<u8> {
    seq![1u8, 4, 0, 0, 0, 0, 4, 0, 0, 0, 0, 4, 0, 0, 0, 4, 0, 0, 0, 0, 4, 0, 0, 0, 0, 4, 1]
}

pub open spec fn row6() -> Seq<u8> {
    seq![1u8, 0, 1, 1, 1, 1, 0, 1, 1, 0, 1, 1, 1, 1, 1, 1, 1, 0, 1, 1, 0, 1, 1, 1, 1, 0, 1]
}

pub open spec fn row7() -> Seq<u8> {
    seq![1u8, 0, 1, 1, 1, 1, 0, 1, 1, 0, 1, 1, 1, 1, 1, 1, 1, 0, 1, 1, 0, 1, 1, 1, 1, 0, 1]
}

pub open spec fn row8() -> Seq<u8> {
    seq![1u8, 0, 0, 0, 0, 0, 4, 1, 1, 0, 0, 0, 1, 1, 1, 0, 0, 0, 1, 1, 4, 0, 0, 0, 0, 0, 1]
}

pub open spec fn row9() -> Seq<u8> {
    seq![1u8, 1, 1, 1, 1, 1, 0, 1, 1, 1, 1, 0, 1, 1, 1, 0, 1, 1, 1, 1, 0, 1, 1, 1, 1, 1, 1]
}

pub open spec fn row10() -> Seq<u8> {
    seq![9u8, 9, 9, 9, 9, 1, 0, 1, 1, 1, 1, 0, 1, 1, 1, 0, 1, 1, 1, 1, 0, 1, 9, 9, 9, 9, 9]
}

pub open spec fn row11() -> Seq<u8> {
    seq![9u8, 9, 9, 9, 9, 1, 0, 1, 1, 0, 0, 5, 0, 0, 0, 5, 0, 0, 1, 1, 0, 1, 9, 9, 9, 9, 9]
}

pub open spec fn row12() -> Seq<u8> {
    seq![9u8, 9, 9, 9, 9, 1, 0, 1, 1, 0, 1, 1, 1, 3, 1, 1, 1, 0, 1, 1, 0, 1, 9, 9, 9, 9, 9]
}

pub open spec fn row13() -> Seq<u8> {
    seq![1u8, 1, 1, 1, 1, 1, 0, 1, 1, 0, 1, 1, 1, 3, 1, 1, 1, 0, 1, 1, 0, 1, 1, 1, 1, 1, 1]
}

pub open spec fn row14() -> Seq<u8> {
    seq![0u8, 0, 0, 0, 0, 0, 4, 0, 0, 4, 1, 1, 9, 9, 9, 1, 1, 4, 0, 0, 4, 0, 0, 0, 0, 0, 0]
}

pub open spec fn row15() -> Seq<u8> {
    seq![1u8, 1, 1, 1, 1, 1, 0, 1, 1, 0, 1, 1, 1, 1, 1, 1, 1, 0, 1, 1, 0, 1, 1, 1, 1, 1, 1]
}

pub open spec fn row16() -> Seq<u8> {
    seq![9u8, 9, 9, 9, 9, 1, 0, 1, 1, 0, 1, 1, 1, 1, 1, 1, 1, 0, 1, 1, 0, 1, 9, 9, 9, 9, 9]
}

pub open spec fn row17() -> Seq<u8> {
    seq![9u8, 9, 9, 9, 9, 1, 0, 1, 1, 4, 0, 0, 0, 0, 0, 0, 0, 4, 1, 1, 0, 1, 9, 9, 9, 9, 9]
}

pub open spec fn row18() -> Seq<u8> {
    seq![9u8, 9, 9, 9, 9, 1, 0, 1, 1, 0, 1, 1, 1, 1, 1, 1, 1, 0, 1, 1, 0, 1, 9, 9, 9, 9, 9]
}

pub open spec fn row19() -> Seq<u8> {
    seq![1u8, 1, 1, 1, 1, 1, 0, 1, 1, 0, 1, 1, 1, 1, 1, 1, 1, 0, 1, 1, 0, 1, 1, 1, 1, 1, 1]
}

pub open spec fn row20() -> Seq<u8> {
    seq![1u8, 0, 0, 0, 0, 0, 4, 0, 0, 4, 0, 0, 1, 1, 1, 0, 0, 4, 0, 0, 4, 0, 0, 0, 0, 0, 1]
}

pub open spec fn row21() -> Seq<u8> {
    seq![1u8, 0, 1, 1, 1, 1, 0, 1, 1, 1, 1, 0, 1, 1, 1, 0, 1, 1, 1, 1, 0, 1, 1, 1, 1, 0, 1]
}

pub open spec fn row22() -> Seq<u8> {
    seq![1u8, 0, 1, 1, 1, 1, 0, 1, 1, 1, 1, 0, 1, 1, 1, 0, 1, 1, 1, 1, 0, 1, 1, 1, 1, 0, 1]
}

pub open spec fn row23() -> Seq<u8> {
    seq![1u8, 2, 0, 0, 1, 1, 4, 0, 0, 4, 0, 5, 0, 0, 0, 5, 0, 4, 0, 0, 4, 1, 1, 0, 0, 2, 1]
}

pub open spec fn row24() -> Seq<u8> {
    seq![1u8, 1, 1, 0, 1, 1, 0, 1, 1, 0, 1, 1, 1, 1, 1, 1, 1, 0, 1, 1, 0, 1, 1, 0, 1, 1, 1]
}

pub open spec fn row25() -> Seq<u8> {
    seq![1u8, 1, 1, 0, 1, 1, 0, 1, 1, 0, 1, 1, 1, 1, 1, 1, 1, 0, 1, 1, 0, 1, 1, 0, 1, 1, 1]
}

pub open spec fn row26() -> Seq<u8> {
    seq![1u8, 0, 0, 4, 0, 0, 0, 1, 1, 0, 0, 0, 1, 1, 1, 0, 0, 0, 1, 1, 0, 0, 0, 4, 0, 0, 1]
}

pub open spec fn row27() -> Seq<u8> {
    seq![1u8, 0, 1, 1, 1, 1, 1, 1, 1, 1, 1, 0, 1, 1, 1, 0, 1, 1, 1, 1, 1, 1, 1, 1, 1, 0, 1]
}

pub open spec fn row28() -> Seq<u8> {
    seq![1u8, 0, 1, 1, 1, 1, 1, 1, 1, 1, 1, 0, 1, 1, 1, 0, 1, 1, 1, 1, 1, 1, 1, 1, 1, 0, 1]
}

pub open spec fn row29() -> Seq<u8> {
    seq![1u8, 0, 0, 0, 0, 0, 0, 0, 0, 0, 0, 4, 0, 0, 0, 4, 0, 0, 0, 0, 0, 0, 0, 0, 0, 0, 1]
}

pub open spec fn row30() -> Seq<u8> {
    seq![1u8, 1, 1, 1, 1, 1, 1, 1, 1, 1, 1, 1, 1, 1, 1, 1, 1, 1, 1, 1, 1, 1, 1, 1, 1, 1, 1]
}

/// The fixed maze, one sequence of tile classes per row, addressed
/// as `rows()[y][x]`.
pub open spec fn rows() -> Seq<Seq<u8>> {
    seq![row0(), row1(), row2(), row3(), row4(), row5(), row6(), row7(), row8(), row9(), row10(), row11(), row12(), row13(), row14(), row15(), row16(), row17(), row18(), row19(), row20(), row21(), row22(), row23(), row24(), row25(), row26(), row27(), row28(), row29(), row30()]
}

/// True when `(x, y)` lies on the grid.
pub open spec fn in_bounds(x: int, y: int) -> bool {
    0 <= x < WIDTH && 0 <= y < HEIGHT
}

/// The tile class of the cell at `(x, y)`.
pub open spec fn tile_spec(x: int, y: int) -> u8 {
    rows()[y][x]
}

fn row_tiles(y: usize) -> (r: [u8; 27])
    requires
        y < 31,
    ensures
        r@ == rows()[y as int],
{
    match y {
        0 => {
            let r: [u8; 27] = [1u8, 1, 1, 1, 1, 1, 1, 1, 1, 1, 1, 1, 1, 1, 1, 1, 1, 1, 1, 1, 1, 1, 1, 1, 1, 1, 1];
            assert(r@ =~= row0());
            r
        },
        1 => {
            let r: [u8; 27] = [1u8, 0, 0, 0, 0, 0, 4, 0, 0, 0, 0, 0, 1, 1, 1, 0, 0, 0, 0, 0, 4, 0, 0, 0, 0, 0, 1];
            assert(r@ =~= row1());
            r
        },
        2 => {
            let r: [u8; 27] = [1u8, 0, 1, 1, 1, 1, 0, 1, 1, 1, 1, 0, 1, 1, 1, 0, 1, 1, 1, 1, 0, 1, 1, 1, 1, 0, 1];
            assert(r@ =~= row2());
            r
        },
        3 => {
            let r: [u8; 27] = [1u8, 2, 1, 1, 1, 1, 0, 1, 1, 1, 1, 0, 1, 1, 1, 0, 1, 1, 1, 1, 0, 1, 1, 1, 1, 2, 1];
            assert(r@ =~= row3());
            r
        },
        4 => {
            let r: [u8; 27] = [1u8, 0, 1, 1, 1, 1, 0, 1, 1, 1, 1, 0, 1, 1, 1, 0, 1, 1, 1, 1, 0, 1, 1, 1, 1, 0, 1];
            assert(r@ =~= row4());
            r
        },
        5 => {
            let r: [u8; 27] = [1u8, 4, 0, 0, 0, 0, 4, 0, 0, 0, 0, 4, 0, 0, 0, 4, 0, 0, 0, 0, 4, 0, 0, 0, 0, 4, 1];
            assert(r@ =~= row5());
            r
        },
        6 => {
            let r: [u8; 27] = [1u8, 0, 1, 1, 1, 1, 0, 1, 1, 0, 1, 1, 1, 1, 1, 1, 1, 0, 1, 1, 0, 1, 1, 1, 1, 0, 1];
            assert(r@ =~= row6());
            r
        },
        7 => {
            let r: [u8; 27] = [1u8, 0, 1, 1, 1, 1, 0, 1, 1, 0, 1, 1, 1, 1, 1, 1, 1, 0, 1, 1, 0, 1, 1, 1, 1, 0, 1];
            assert(r@ =~= row7());
            r
        },
        8 => {
            let r: [u8; 27] = [1u8, 0, 0, 0, 0, 0, 4, 1, 1, 0, 0, 0, 1, 1, 1, 0, 0, 0, 1, 1, 4, 0, 0, 0, 0, 0, 1];
            assert(r@ =~= row8());
            r
        },
        9 => {
            let r: [u8; 27] = [1u8, 1, 1, 1, 1, 1, 0, 1, 1, 1, 1, 0, 1, 1, 1, 0, 1, 1, 1, 1, 0, 1, 1, 1, 1, 1, 1];
            assert(r@ =~= row9());
            r
        },
        10 => {
            let r: [u8; 27] = [9u8, 9, 9, 9, 9, 1, 0, 1, 1, 1, 1, 0, 1, 1, 1, 0, 1, 1, 1, 1, 0, 1, 9, 9, 9, 9, 9];
            assert(r@ =~= row10());
            r
        },
        11 => {
            let r: [u8; 27] = [9u8, 9, 9, 9, 9, 1, 0, 1, 1, 0, 0, 5, 0, 0, 0, 5, 0, 0, 1, 1, 0, 1, 9, 9, 9, 9, 9];
            assert(r@ =~= row11());
            r
        },
        12 => {
            let r: [u8; 27] = [9u8, 9, 9, 9, 9, 1, 0, 1, 1, 0, 1, 1, 1, 3, 1, 1, 1, 0, 1, 1, 0, 1, 9, 9, 9, 9, 9];
            assert(r@ =~= row12());
            r
        },
        13 => {
            let r: [u8; 27] = [1u8, 1, 1, 1, 1, 1, 0, 1, 1, 0, 1, 1, 1, 3, 1, 1, 1, 0, 1, 1, 0, 1, 1, 1, 1, 1, 1];
            assert(r@ =~= row13());
            r
        },
        14 => {
            let r: [u8; 27] = [0u8, 0, 0, 0, 0, 0, 4, 0, 0, 4, 1, 1, 9, 9, 9, 1, 1, 4, 0, 0, 4, 0, 0, 0, 0, 0, 0];
            assert(r@ =~= row14());
            r
        },
        15 => {
            let r: [u8; 27] = [1u8, 1, 1, 1, 1, 1, 0, 1, 1, 0, 1, 1, 1, 1, 1, 1, 1, 0, 1, 1, 0, 1, 1, 1, 1, 1, 1];
            assert(r@ =~= row15());
            r
        },
        16 => {
            let r: [u8; 27] = [9u8, 9, 9, 9, 9, 1, 0, 1, 1, 0, 1, 1, 1, 1, 1, 1, 1, 0, 1, 1, 0, 1, 9, 9, 9, 9, 9];
            assert(r@ =~= row16());
            r
        },
        17 => {
            let r: [u8; 27] = [9u8, 9, 9, 9, 9, 1, 0, 1, 1, 4, 0, 0, 0, 0, 0, 0, 0, 4, 1, 1, 0, 1, 9, 9, 9, 9, 9];
            assert(r@ =~= row17());
            r
        },
        18 => {
            let r: [u8; 27] = [9u8, 9, 9, 9, 9, 1, 0, 1, 1, 0, 1, 1, 1, 1, 1, 1, 1, 0, 1, 1, 0, 1, 9, 9, 9, 9, 9];
            assert(r@ =~= row18());
            r
        },
        19 => {
            let r: [u8; 27] = [1u8, 1, 1, 1, 1, 1, 0, 1, 1, 0, 1, 1, 1, 1, 1, 1, 1, 0, 1, 1, 0, 1, 1, 1, 1, 1, 1];
            assert(r@ =~= row19());
            r
        },
        20 => {
            let r: [u8; 27] = [1u8, 0, 0, 0, 0, 0, 4, 0, 0, 4, 0, 0, 1, 1, 1, 0, 0, 4, 0, 0, 4, 0, 0, 0, 0, 0, 1];
            assert(r@ =~= row20());
            r
        },
        21 => {
            let r: [u8; 27] = [1u8, 0, 1, 1, 1, 1, 0, 1, 1, 1, 1, 0, 1, 1, 1, 0, 1, 1, 1, 1, 0, 1, 1, 1, 1, 0, 1];
            assert(r@ =~= row21());
            r
        },
        22 => {
            let r: [u8; 27] = [1u8, 0, 1, 1, 1, 1, 0, 1, 1, 1, 1, 0, 1, 1, 1, 0, 1, 1, 1, 1, 0, 1, 1, 1, 1, 0, 1];
            assert(r@ =~= row22());
            r
        },
        23 => {
            let r: [u8; 27] = [1u8, 2, 0, 0, 1, 1, 4, 0, 0, 4, 0, 5, 0, 0, 0, 5, 0, 4, 0, 0, 4, 1, 1, 0, 0, 2, 1];
            assert(r@ =~= row23());
            r
        },
        24 => {
            let r: [u8; 27] = [1u8, 1, 1, 0, 1, 1, 0, 1, 1, 0, 1, 1, 1, 1, 1, 1, 1, 0, 1, 1, 0, 1, 1, 0, 1, 1, 1];
            assert(r@ =~= row24());
            r
        },
        25 => {
            let r: [u8; 27] = [1u8, 1, 1, 0, 1, 1, 0, 1, 1, 0, 1, 1, 1, 1, 1, 1, 1, 0, 1, 1, 0, 1, 1, 0, 1, 1, 1];
            assert(r@ =~= row25());
            r
        },
        26 => {
            let r: [u8; 27] = [1u8, 0, 0, 4, 0, 0, 0, 1, 1, 0, 0, 0, 1, 1, 1, 0, 0, 0, 1, 1, 0, 0, 0, 4, 0, 0, 1];
            assert(r@ =~= row26());
            r
        },
        27 => {
            let r: [u8; 27] = [1u8, 0, 1, 1, 1, 1, 1, 1, 1, 1, 1, 0, 1, 1, 1, 0, 1, 1, 1, 1, 1, 1, 1, 1, 1, 0, 1];
            assert(r@ =~= row27());
            r
        },
        28 => {
            let r: [u8; 27] = [1u8, 0, 1, 1, 1, 1, 1, 1, 1, 1, 1, 0, 1, 1, 1, 0, 1, 1, 1, 1, 1, 1, 1, 1, 1, 0, 1];
            assert(r@ =~= row28());
            r
        },
        29 => {
            let r: [u8; 27] = [1u8, 0, 0, 0, 0, 0, 0, 0, 0, 0, 0, 4, 0, 0, 0, 4, 0, 0, 0, 0, 0, 0, 0, 0, 0, 0, 1];
            assert(r@ =~= row29());
            r
        },
        30 => {
            let r: [u8; 27] = [1u8, 1, 1, 1, 1, 1, 1, 1, 1, 1, 1, 1, 1, 1, 1, 1, 1, 1, 1, 1, 1, 1, 1, 1, 1, 1, 1];
            assert(r@ =~= row30());
            r
        },
        _ => {
            // unreachable: the requires bounds y below the row count
            let r: [u8; 27] = [1u8; 27];
            assert(false);
            r
        },
    }
}

/// Looks the tile class of `(x, y)` up in the maze grid.
pub fn tile(x: i32, y: i32) -> (c: u8)
    requires
        in_bounds(x as int, y as int),
    ensures
        c == tile_spec(x as int, y as int),
{
    let row: [u8; 27] = row_tiles(y as usize);
    row[x as usize]
}

/// Whether the player may stand on `(x, y)`: on the grid, not a wall, and
/// not the pen gate (the player may not enter the pen).
pub open spec fn player_walkable(x: int, y: int) -> bool {
    in_bounds(x, y) && tile_spec(x, y) != WALL && tile_spec(x, y) != GATE
}

/// Whether a ghost may stand on `(x, y)`: on the grid and not a wall.
pub open spec fn ghost_walkable(x: int, y: int) -> bool {
    in_bounds(x, y) && tile_spec(x, y) != WALL
}

pub fn is_walkable_player(x: i32, y: i32) -> (b: bool)
    ensures
        b == player_walkable(x as int, y as int),
{
    0 <= x && x < WIDTH && 0 <= y && y < HEIGHT && {
        let c = tile(x, y);
        c != WALL && c != GATE
    }
}

pub fn is_walkable_ghost(x: i32, y: i32) -> (b: bool)
    ensures
        b == ghost_walkable(x as int, y as int),
{
    0 <= x && x < WIDTH && 0 <= y && y < HEIGHT && tile(x, y) != WALL
}

/// Whether a tile of class `c` holds a pellet at game start.
pub open spec fn pellet_class(c: u8) -> bool {
    c == PATH || c == INTERSECTION || c == NO_UP
}

spec fn seed_class(c: u8, energizers: bool) -> bool {
    if energizers {
        c == ENERGIZER
    } else {
        pellet_class(c)
    }
}

/// The cells holding a pellet at game start: every cell of class
/// path, intersection or no-up.
pub open spec fn pellet_seed() -> Set<Position> {
    Set::new(
        |p: Position|
            in_bounds(p.x as int, p.y as int) && pellet_class(
                tile_spec(p.x as int, p.y as int),
            ),
    )
}

/// The cells holding an energizer at game start: every cell of class
/// energizer.
pub open spec fn energizer_seed() -> Set<Position> {
    Set::new(
        |p: Position|
            in_bounds(p.x as int, p.y as int) && tile_spec(p.x as int, p.y as int) == ENERGIZER,
    )
}

fn seed_positions(energizers: bool) -> (v: Vec<Position>)
    ensures
        v@.no_duplicates(),
        forall|p: Position|
            #[trigger] v@.contains(p) <==> in_bounds(p.x as int, p.y as int) && seed_class(
                tile_spec(p.x as int, p.y as int),
                energizers,
            ),
{
    let mut v: Vec<Position> = Vec::new();
    let mut y: i32 = 0;
    while y < HEIGHT
        invariant
            0 <= y <= HEIGHT,
            v@.no_duplicates(),
            forall|p: Position|
                #[trigger] v@.contains(p) <==> in_bounds(p.x as int, p.y as int) && p.y < y
                    && seed_class(tile_spec(p.x as int, p.y as int), energizers),
        decreases HEIGHT - y,
    {
        let row: [u8; 27] = row_tiles(y as usize);
        let mut x: i32 = 0;
        while x < WIDTH
            invariant
                0 <= y < HEIGHT,
                0 <= x <= WIDTH,
                row@ == rows()[y as int],
                v@.no_duplicates(),
                forall|p: Position|
                    #[trigger] v@.contains(p) <==> in_bounds(p.x as int, p.y as int) && (p.y < y
                        || (p.y == y && p.x < x)) && seed_class(
                        tile_spec(p.x as int, p.y as int),
                        energizers,
                    ),
            decreases WIDTH - x,
        {
            let c = row[x as usize];
            let keep = if energizers {
                c == ENERGIZER
            } else {
                c == PATH || c == INTERSECTION || c == NO_UP
            };
            if keep {
                let p = Position { x, y };
                assert(!v@.contains(p));
                let ghost pre = v@;
                v.push(p);
                proof {
                    broadcast use vstd::seq_lib::lemma_seq_contains_after_push;

                    assert(v@ == pre.push(p));
                    assert forall|i: int, j: int|
                        0 <= i < v@.len() && 0 <= j < v@.len() && i != j implies v@[i]
                        != v@[j] by {
                        if i < pre.len() && j < pre.len() {
                        } else if i == pre.len() {
                            assert(pre.contains(pre[j]));
                        } else {
                            assert(pre.contains(pre[i]));
                        }
                    }
                }
            }
            x = x + 1;
        }
        y = y + 1;
    }
    v
}

/// Enumerates the cells holding a pellet at game start, each exactly once.
pub fn initial_pellets() -> (v: Vec<Position>)
    ensures
        v@.no_duplicates(),
        v@.to_set() == pellet_seed(),
{
    let v = seed_positions(false);
    proof {
        assert(v@.to_set() =~= pellet_seed());
    }
    v
}

/// Enumerates the cells holding an energizer at game start, each exactly once.
pub fn initial_energizers() -> (v: Vec<Position>)
    ensures
        v@.no_duplicates(),
        v@.to_set() == energizer_seed(),
{
    let v = seed_positions(true);
    proof {
        assert(v@.to_set() =~= energizer_seed());
    }
    v
}

} // verus!
