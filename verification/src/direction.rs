use vstd::prelude::*;

verus! {

/// One of the four axis-aligned directions the snake can travel in.
#[derive(Clone, Copy, PartialEq, Eq, Structural, Debug)]
pub enum Direction {
    Right,
    Left,
    Up,
    Down,
}

impl Direction {
    /// The direction pointing the opposite way.
    pub open spec fn opposite_spec(self) -> Direction {
        match self {
            Direction::Right => Direction::Left,
            Direction::Left => Direction::Right,
            Direction::Up => Direction::Down,
            Direction::Down => Direction::Up,
        }
    }

    #[verifier::when_used_as_spec(opposite_spec)]
    pub fn opposite(self) -> (r: Direction)
        ensures
            r == self.opposite_spec(),
    {
        match self {
            Direction::Right => Direction::Left,
            Direction::Left => Direction::Right,
            Direction::Up => Direction::Down,
            Direction::Down => Direction::Up,
        }
    }

    /// The travel direction after a turn is requested while going in
    /// direction `self`: a request for the exact opposite is ignored,
    /// any other request (including the current direction) is taken.
    pub open spec fn turn_spec(self, requested: Direction) -> Direction {
        if requested == self.opposite_spec() {
            self
        } else {
            requested
        }
    }
}

/// A requested turn to the exact opposite of the current direction leaves
/// the direction unchanged; a request for any other direction, the current
/// one included, replaces it.
pub proof fn lemma_turn_filter(current: Direction, requested: Direction)
    ensures
        requested == current.opposite_spec() ==> current.turn_spec(requested) == current,
        requested != current.opposite_spec() ==> current.turn_spec(requested) == requested,
{
}

} // verus!
