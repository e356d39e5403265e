//! Headings of the snake and the steering rule.

use vstd::prelude::*;

verus! {

/// One of the four headings on the grid.
#[derive(Clone, Copy, Debug, PartialEq, Eq, Hash, Structural)]
pub enum Direction {
    Left,
    Up,
    Right,
    Down,
}

impl Direction {
    /// The heading that points the other way.
    pub open spec fn opposite(self) -> Direction {
        match self {
            Direction::Left => Direction::Right,
            Direction::Right => Direction::Left,
            Direction::Up => Direction::Down,
            Direction::Down => Direction::Up,
        }
    }

    /// Horizontal unit offset of one step in this heading.
    pub open spec fn dx(self) -> int {
        match self {
            Direction::Left => -1,
            Direction::Right => 1,
            _ => 0,
        }
    }

    /// Vertical unit offset of one step in this heading; `Up` increases `y`.
    pub open spec fn dy(self) -> int {
        match self {
            Direction::Up => 1,
            Direction::Down => -1,
            _ => 0,
        }
    }

    /// The heading after `wanted` is requested while heading `self`: a
    /// request for the exact opposite is ignored, any other is taken.
    pub open spec fn steered(self, wanted: Direction) -> Direction {
        if wanted == self.opposite() {
            self
        } else {
            wanted
        }
    }

    /// Computes [`Direction::opposite`].
    pub fn reverse(self) -> (back: Direction)
        ensures
            back == self.opposite(),
    {
        match self {
            Direction::Left => Direction::Right,
            Direction::Right => Direction::Left,
            Direction::Up => Direction::Down,
            Direction::Down => Direction::Up,
        }
    }

    /// The unit offset `(dx, dy)` of one step in this heading.
    pub fn offset(self) -> (delta: (i32, i32))
        ensures
            delta.0 == self.dx(),
            delta.1 == self.dy(),
    {
        match self {
            Direction::Left => (-1, 0),
            Direction::Right => (1, 0),
            Direction::Up => (0, 1),
            Direction::Down => (0, -1),
        }
    }

    /// Applies one steering request, see [`Direction::steered`].
    pub fn steer(self, wanted: Direction) -> (heading: Direction)
        ensures
            heading == self.steered(wanted),
    {
        if wanted == self.reverse() {
            self
        } else {
            wanted
        }
    }
}

/// Which of the four directional keys are held down at one moment.
#[derive(Clone, Copy, Debug, PartialEq, Eq, Structural)]
pub struct ArrowKeys {
    pub left: bool,
    pub right: bool,
    pub up: bool,
    pub down: bool,
}

impl ArrowKeys {
    /// No key held.
    pub open spec fn none() -> ArrowKeys {
        ArrowKeys { left: false, right: false, up: false, down: false }
    }

    /// Exactly the key of `wanted` held.
    pub open spec fn only(wanted: Direction) -> ArrowKeys {
        ArrowKeys {
            left: wanted == Direction::Left,
            right: wanted == Direction::Right,
            up: wanted == Direction::Up,
            down: wanted == Direction::Down,
        }
    }

    /// The heading that results from `current` when the held keys are
    /// tested one after the other in the order Left, Right, Up, Down. Each
    /// held key steers from the heading the keys before it have left.
    pub open spec fn resolved(self, current: Direction) -> Direction {
        let after_left = if self.left { current.steered(Direction::Left) } else { current };
        let after_right = if self.right { after_left.steered(Direction::Right) } else { after_left };
        let after_up = if self.up { after_right.steered(Direction::Up) } else { after_right };
        if self.down { after_up.steered(Direction::Down) } else { after_up }
    }

    /// The keys with only `wanted` held.
    pub fn pressing(wanted: Direction) -> (keys: ArrowKeys)
        ensures
            keys == ArrowKeys::only(wanted),
    {
        ArrowKeys {
            left: wanted == Direction::Left,
            right: wanted == Direction::Right,
            up: wanted == Direction::Up,
            down: wanted == Direction::Down,
        }
    }

    /// Computes [`ArrowKeys::resolved`].
    pub fn resolve(&self, current: Direction) -> (heading: Direction)
        ensures
            heading == self.resolved(current),
    {
        let mut heading = current;
        if self.left {
            heading = heading.steer(Direction::Left);
        }
        if self.right {
            heading = heading.steer(Direction::Right);
        }
        if self.up {
            heading = heading.steer(Direction::Up);
        }
        if self.down {
            heading = heading.steer(Direction::Down);
        }
        heading
    }
}

/// A request for the opposite heading changes nothing; a request for any
/// other heading is taken.
pub proof fn lemma_steering_rejects_only_reversal(current: Direction, wanted: Direction)
    ensures
        current.steered(current.opposite()) == current,
        wanted != current.opposite() ==> current.steered(wanted) == wanted,
        ArrowKeys::only(current.opposite()).resolved(current) == current,
        wanted != current.opposite() ==> ArrowKeys::only(wanted).resolved(current) == wanted,
        ArrowKeys::none().resolved(current) == current,
{
}

/// Reversing twice gives the heading back, and no heading is its own
/// opposite.
pub proof fn lemma_opposite_is_involution(heading: Direction)
    ensures
        heading.opposite().opposite() == heading,
        heading.opposite() != heading,
{
}

} // verus!
