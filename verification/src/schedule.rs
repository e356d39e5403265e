//! The labelled steps of the game and the order they run in.

use vstd::prelude::*;

verus! {

/// The steps of the game that others are ordered against.
#[derive(Clone, Copy, Debug, Hash, PartialEq, Eq, Structural)]
pub enum SnakeMovement {
    Input,
    Movement,
    Eating,
    Growing,
}

impl SnakeMovement {
    /// Place of the step in the order Input, Movement, Eating, Growing.
    pub open spec fn rank(self) -> int {
        match self {
            SnakeMovement::Input => 0,
            SnakeMovement::Movement => 1,
            SnakeMovement::Eating => 2,
            SnakeMovement::Growing => 3,
        }
    }

    /// Whether this step runs before `later`.
    pub fn runs_before(self, later: SnakeMovement) -> (earlier: bool)
        ensures
            earlier == (self.rank() < later.rank()),
    {
        match (self, later) {
            (SnakeMovement::Input, SnakeMovement::Movement) => true,
            (SnakeMovement::Input, SnakeMovement::Eating) => true,
            (SnakeMovement::Input, SnakeMovement::Growing) => true,
            (SnakeMovement::Movement, SnakeMovement::Eating) => true,
            (SnakeMovement::Movement, SnakeMovement::Growing) => true,
            (SnakeMovement::Eating, SnakeMovement::Growing) => true,
            _ => false,
        }
    }
}

} // verus!
