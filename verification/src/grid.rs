//! The fixed playing field and the directions a snake can face.
use vstd::prelude::*;

verus! {

/// Number of playable columns: the x coordinate of every cell is below this.
pub const WIDTH: usize = 20;

/// Number of playable rows: the y coordinate of every cell is below this.
pub const HEIGHT: usize = 10;

/// The four directions a snake can face. A direction changes only on a key
/// press that is not the reverse of the current one.
#[derive(Clone, Copy, PartialEq, Eq, Structural, Debug)]
pub enum Direction {
    Up,
    Down,
    Left,
    Right,
}

impl Direction {
    /// The 180-degree reverse of this direction.
    pub open spec fn spec_opposite(self) -> Direction {
        match self {
            Direction::Up => Direction::Down,
            Direction::Down => Direction::Up,
            Direction::Left => Direction::Right,
            Direction::Right => Direction::Left,
        }
    }

    #[verifier::when_used_as_spec(spec_opposite)]
    pub fn opposite(self) -> (r: Direction)
        ensures
            r == self.spec_opposite(),
    {
        match self {
            Direction::Up => Direction::Down,
            Direction::Down => Direction::Up,
            Direction::Left => Direction::Right,
            Direction::Right => Direction::Left,
        }
    }
}

/// True when stepping from `p` in direction `d` would leave the grid below
/// coordinate zero. Such a step cannot be represented in unsigned
/// coordinates and counts as an immediate wall collision.
pub open spec fn step_underflows(p: (usize, usize), d: Direction) -> bool {
    ||| d == Direction::Up && p.1 == 0
    ||| d == Direction::Left && p.0 == 0
}

/// The cell one unit away from `p` in direction `d`. Meaningful only when
/// the step does not underflow and the coordinate being increased is below
/// `usize::MAX`.
pub open spec fn stepped_head(p: (usize, usize), d: Direction) -> (usize, usize)
    recommends
        !step_underflows(p, d),
{
    match d {
        Direction::Up => (p.0, (p.1 - 1) as usize),
        Direction::Down => (p.0, (p.1 + 1) as usize),
        Direction::Left => ((p.0 - 1) as usize, p.1),
        Direction::Right => ((p.0 + 1) as usize, p.1),
    }
}

} // verus!
