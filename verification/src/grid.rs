//! The arena's cell coordinates.

use vstd::prelude::*;
use crate::heading::Direction;

verus! {

/// Number of cells along the arena's horizontal axis.
pub const ARENA_WIDTH: u32 = 10;

/// Number of cells along the arena's vertical axis.
pub const ARENA_HEIGHT: u32 = 10;

/// A cell of the grid. Cells are counted from zero; nothing clamps a position
/// to the arena.
#[derive(Clone, Copy, Debug, PartialEq, Eq, Structural)]
pub struct Position {
    pub x: i32,
    pub y: i32,
}

impl Position {
    /// Whether the cell lies inside the arena.
    pub open spec fn in_arena(self) -> bool {
        0 <= self.x < ARENA_WIDTH && 0 <= self.y < ARENA_HEIGHT
    }

    /// Whether the neighbouring cell in direction `heading` still has
    /// coordinates that the machine integers can hold.
    pub open spec fn spec_can_advance(self, heading: Direction) -> bool {
        &&& i32::MIN <= self.x + heading.dx() <= i32::MAX
        &&& i32::MIN <= self.y + heading.dy() <= i32::MAX
    }

    /// The neighbouring cell in direction `heading`: `Left` lowers `x` by one,
    /// `Right` raises it, `Up` raises `y` by one, `Down` lowers it.
    pub open spec fn advanced(self, heading: Direction) -> Position {
        Position { x: (self.x + heading.dx()) as i32, y: (self.y + heading.dy()) as i32 }
    }

    /// Tests whether [`Position::advance`] may be called with `heading`.
    #[verifier::when_used_as_spec(spec_can_advance)]
    pub fn can_advance(self, heading: Direction) -> (fits: bool)
        ensures
            fits == self.spec_can_advance(heading),
    {
        match heading {
            Direction::Left => self.x > i32::MIN,
            Direction::Right => self.x < i32::MAX,
            Direction::Up => self.y < i32::MAX,
            Direction::Down => self.y > i32::MIN,
        }
    }

    /// Moves one cell in direction `heading`.
    pub fn advance(self, heading: Direction) -> (next: Position)
        requires
            self.can_advance(heading),
        ensures
            next == self.advanced(heading),
            next.x == self.x + heading.dx(),
            next.y == self.y + heading.dy(),
    {
        match heading {
            Direction::Left => Position { x: self.x - 1, y: self.y },
            Direction::Right => Position { x: self.x + 1, y: self.y },
            Direction::Up => Position { x: self.x, y: self.y + 1 },
            Direction::Down => Position { x: self.x, y: self.y - 1 },
        }
    }
}

} // verus!
