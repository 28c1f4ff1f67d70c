//! Placing the food on a random cell of the arena.

use vstd::prelude::*;
use crate::grid::{Position, ARENA_HEIGHT, ARENA_WIDTH};
use crate::registry::{food_at, EntityId};
use crate::game::Game;

verus! {

/// The cell that a raw draw selects among `extent` cells: the draw is read
/// as the fraction `raw / 2^32` of the unit interval, scaled by `extent` and
/// rounded down.
pub open spec fn cell_of(raw: u32, extent: u32) -> int {
    (raw as int * extent as int) / 0x1_0000_0000
}

/// The cell of the arena that a pair of raw draws selects.
pub open spec fn spec_food_position(raw_x: u32, raw_y: u32) -> Position {
    Position { x: cell_of(raw_x, ARENA_WIDTH) as i32, y: cell_of(raw_y, ARENA_HEIGHT) as i32 }
}

/// Calls `rand::random::<u32>()`, which draws from the thread-local
/// generator that the operating system seeds. Nothing is claimed of the
/// value.
#[verifier::external_body]
fn random_u32() -> u32 {
    rand::random::<u32>()
}

/// Selects one of `extent` cells by the raw draw `raw`.
pub fn food_cell(raw: u32, extent: u32) -> (cell: i32)
    requires
        0 < extent <= i32::MAX,
    ensures
        cell == cell_of(raw, extent),
        0 <= cell < extent,
{
    assert(0 <= raw as int * extent as int <= 0xffff_ffff * extent as int) by (nonlinear_arith)
        requires
            0 <= raw <= 0xffff_ffff,
            0 < extent,
    ;
    let scaled: u64 = (raw as u64) * (extent as u64);
    (scaled / 0x1_0000_0000) as i32
}

/// The cell of the arena that the raw draws `raw_x` and `raw_y` select.
#[verifier::when_used_as_spec(spec_food_position)]
pub fn food_position(raw_x: u32, raw_y: u32) -> (position: Position)
    ensures
        position == spec_food_position(raw_x, raw_y),
        position.in_arena(),
{
    Position { x: food_cell(raw_x, ARENA_WIDTH), y: food_cell(raw_y, ARENA_HEIGHT) }
}

impl Game {
    /// Puts the food on a cell of the arena drawn at random, and returns its
    /// identity. Which cell it is depends on the draw alone: the food may
    /// land on the snake.
    pub fn food_spawner(&mut self) -> (id: EntityId)
        requires
            old(self).wf(),
        ensures
            final(self).wf(),
            final(self).chain() == old(self).chain(),
            id.0 == old(self).entities().len(),
            final(self).entities() == old(self).entities().push(food_at(final(self).position(id))),
            final(self).position(id).in_arena(),
            exists|raw_x: u32, raw_y: u32|
                final(self).position(id) == #[trigger] spec_food_position(raw_x, raw_y),
    {
        let raw_x: u32 = random_u32();
        let raw_y: u32 = random_u32();
        let position = food_position(raw_x, raw_y);
        self.spawn_food(position)
    }
}

} // verus!
