//! Cells of the playing field and wrap-around stepping.

use vstd::prelude::*;
use vstd::arithmetic::div_mod::lemma_fundamental_div_mod;
use vstd::arithmetic::div_mod::lemma_fundamental_div_mod_converse;
use crate::direction::Direction;

verus! {

/// Columns of the standard playing field.
pub const ARENA_WIDTH: u32 = 10;

/// Rows of the standard playing field.
pub const ARENA_HEIGHT: u32 = 10;

/// The representative of `value` in `[0, bound)`: the mathematical
/// remainder, never negative for a positive `bound`.
pub open spec fn wrap(value: int, bound: int) -> int {
    value % bound
}

/// A cell of the grid.
#[derive(Clone, Copy, Debug, PartialEq, Eq, Hash, Structural)]
pub struct Position {
    pub x: i32,
    pub y: i32,
}

impl Position {
    /// Whether the cell lies on a grid of `width` columns and `height` rows.
    pub open spec fn in_bounds(self, width: i32, height: i32) -> bool {
        0 <= self.x < width && 0 <= self.y < height
    }

    /// The cell one step away in `heading`, each axis wrapped onto the grid.
    pub open spec fn stepped(self, heading: Direction, width: i32, height: i32) -> Position {
        Position {
            x: wrap(self.x + heading.dx(), width as int) as i32,
            y: wrap(self.y + heading.dy(), height as int) as i32,
        }
    }

    /// Computes [`Position::in_bounds`].
    pub fn is_in_bounds(&self, width: i32, height: i32) -> (inside: bool)
        ensures
            inside == self.in_bounds(width, height),
    {
        0 <= self.x && self.x < width && 0 <= self.y && self.y < height
    }

    /// Moves one cell in `heading` on a `width` by `height` grid, leaving
    /// one edge to come back in at the opposite one.
    pub fn step(self, heading: Direction, width: i32, height: i32) -> (next: Position)
        requires
            width > 0,
            height > 0,
        ensures
            next == self.stepped(heading, width, height),
            next.in_bounds(width, height),
    {
        let (dx, dy) = heading.offset();
        proof {
            lemma_wrap_in_range(self.x + heading.dx(), width as int);
            lemma_wrap_in_range(self.y + heading.dy(), height as int);
        }
        Position {
            x: wrap_coordinate(self.x as i64 + dx as i64, width),
            y: wrap_coordinate(self.y as i64 + dy as i64, height),
        }
    }
}

impl Default for Position {
    fn default() -> (origin: Position)
        ensures
            origin == (Position { x: 0, y: 0 }),
    {
        Position { x: 0, y: 0 }
    }
}

/// Wraps `value` into `[0, bound)`, also where `value` is negative.
pub fn wrap_coordinate(value: i64, bound: i32) -> (wrapped: i32)
    requires
        bound > 0,
    ensures
        wrapped == wrap(value as int, bound as int),
        0 <= wrapped < bound,
{
    let modulus: i64 = bound as i64;
    let remainder: i64 = value % modulus;
    proof {
        lemma_wrap_in_range(value as int, bound as int);
        lemma_truncated_remainder(value as int, bound as int);
    }
    let lifted: i64 = (remainder + modulus) % modulus;
    lifted as i32
}

/// A wrapped value lies on the grid axis.
pub proof fn lemma_wrap_in_range(value: int, bound: int)
    requires
        bound > 0,
    ensures
        0 <= wrap(value, bound) < bound,
{
    lemma_fundamental_div_mod(value, bound);
}

/// Wrapping leaves a value that is already on the axis alone, and takes
/// the two cells just outside to the far edge.
pub proof fn lemma_wrap_at_edges(value: int, bound: int)
    requires
        bound > 0,
    ensures
        0 <= value < bound ==> wrap(value, bound) == value,
        wrap(-1, bound) == bound - 1,
        wrap(bound, bound) == 0,
{
    if 0 <= value < bound {
        lemma_fundamental_div_mod_converse(value, bound, 0, value);
    }
    lemma_fundamental_div_mod_converse(-1, bound, -1, bound - 1);
    lemma_fundamental_div_mod_converse(bound, bound, 1, 0);
}

/// Relates the remainder that rounds toward zero to the mathematical one:
/// adding the bound to the former and reducing once more gives the latter.
proof fn lemma_truncated_remainder(value: int, bound: int)
    requires
        bound > 0,
    ensures
        value >= 0 ==> (value % bound + bound) % bound == value % bound,
        value < 0 ==> (-((-value) % bound) + bound) % bound == value % bound,
{
    lemma_fundamental_div_mod(value, bound);
    lemma_fundamental_div_mod(-value, bound);
    let target = value % bound;
    if value >= 0 {
        lemma_fundamental_div_mod_converse(target + bound, bound, 1, target);
    } else {
        let q = (-value) / bound;
        let r = (-value) % bound;
        assert(-value == bound * q + r);
        if r == 0 {
            assert(value == (-q) * bound + 0) by (nonlinear_arith)
                requires
                    -value == bound * q + r,
                    r == 0,
            ;
            lemma_fundamental_div_mod_converse(value, bound, -q, 0);
            lemma_fundamental_div_mod_converse(bound, bound, 1, 0);
        } else {
            assert(value == (-q - 1) * bound + (bound - r)) by (nonlinear_arith)
                requires
                    -value == bound * q + r,
            ;
            lemma_fundamental_div_mod_converse(value, bound, -q - 1, bound - r);
            lemma_fundamental_div_mod_converse(bound - r, bound, 0, bound - r);
        }
    }
}

} // verus!
