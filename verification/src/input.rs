//! Resolving the sampled arrow keys into the snake's next heading.

use vstd::prelude::*;
use bevy::input::keyboard::KeyCode;
use bevy::input::ButtonInput;
use std::hash::Hash;
use crate::heading::Direction;

verus! {

/// Declares `bevy::input::ButtonInput`, the record of pressed buttons that
/// bevy's input systems keep. A value is opaque here: nothing is known of it
/// but what [`pressed_arrows`] names.
#[verifier::external_type_specification]
#[verifier::external_body]
#[verifier::reject_recursive_types(T)]
pub struct ExButtonInput<T: Copy + Eq + Hash + Send + Sync + 'static>(ButtonInput<T>);

/// Declares `bevy::input::keyboard::KeyCode`, bevy's name for a key of the
/// keyboard. A value is opaque here.
#[verifier::external_type_specification]
#[verifier::external_body]
pub struct ExKeyCode(KeyCode);

/// The four keys that steer the snake.
#[derive(Clone, Copy, Debug, PartialEq, Eq, Structural)]
pub enum ArrowKey {
    Left,
    Down,
    Up,
    Right,
}

/// The arrow keys that `keyboard` holds as pressed: those for whose key code
/// `ButtonInput::pressed` answers `true`.
pub uninterp spec fn pressed_arrows(keyboard: ButtonInput<KeyCode>) -> Set<ArrowKey>;

/// One sample of the four arrow keys: `true` where the key is held down.
#[derive(Clone, Copy, Debug, PartialEq, Eq, Structural)]
pub struct PressedArrows {
    pub left: bool,
    pub down: bool,
    pub up: bool,
    pub right: bool,
}

/// The sample that reads `held` key by key.
pub open spec fn sample_of(held: Set<ArrowKey>) -> PressedArrows {
    PressedArrows {
        left: held.contains(ArrowKey::Left),
        down: held.contains(ArrowKey::Down),
        up: held.contains(ArrowKey::Up),
        right: held.contains(ArrowKey::Right),
    }
}

/// The heading that a sample asks for: the first held key in the order left,
/// down, up, right; the current heading when no key is held.
pub open spec fn proposed_heading(current: Direction, keys: PressedArrows) -> Direction {
    if keys.left {
        Direction::Left
    } else if keys.down {
        Direction::Down
    } else if keys.up {
        Direction::Up
    } else if keys.right {
        Direction::Right
    } else {
        current
    }
}

/// The heading after a sample: the proposed one, unless that would turn the
/// snake straight back, in which case the current heading stays.
pub open spec fn resolved_heading(current: Direction, keys: PressedArrows) -> Direction {
    if proposed_heading(current, keys) == current.opposite() {
        current
    } else {
        proposed_heading(current, keys)
    }
}

/// Calls `ButtonInput::pressed` with the key code of `key`. The contract
/// claims that the answer depends on the value of `keyboard` and on the key
/// alone: it is membership in the set of pressed keys that the value holds,
/// which is how bevy implements the query.
#[verifier::external_body]
fn arrow_pressed(keyboard: &ButtonInput<KeyCode>, key: ArrowKey) -> (held: bool)
    ensures
        held == pressed_arrows(*keyboard).contains(key),
{
    keyboard.pressed(
        match key {
            ArrowKey::Left => KeyCode::ArrowLeft,
            ArrowKey::Down => KeyCode::ArrowDown,
            ArrowKey::Up => KeyCode::ArrowUp,
            ArrowKey::Right => KeyCode::ArrowRight,
        },
    )
}

/// Samples the four arrow keys of `keyboard`.
pub fn sample_arrows(keyboard: &ButtonInput<KeyCode>) -> (keys: PressedArrows)
    ensures
        keys == sample_of(pressed_arrows(*keyboard)),
{
    PressedArrows {
        left: arrow_pressed(keyboard, ArrowKey::Left),
        down: arrow_pressed(keyboard, ArrowKey::Down),
        up: arrow_pressed(keyboard, ArrowKey::Up),
        right: arrow_pressed(keyboard, ArrowKey::Right),
    }
}

/// Resolves one sample of the arrow keys against the current heading.
pub fn resolve_heading(current: Direction, keys: PressedArrows) -> (next: Direction)
    ensures
        next == resolved_heading(current, keys),
        next != current.opposite(),
{
    let proposed = if keys.left {
        Direction::Left
    } else if keys.down {
        Direction::Down
    } else if keys.up {
        Direction::Up
    } else if keys.right {
        Direction::Right
    } else {
        current
    };
    if proposed == current.opposite() {
        current
    } else {
        proposed
    }
}

/// A resolved heading never reverses the current one, and it is either the
/// proposed heading or the current one.
pub proof fn lemma_no_reversal(current: Direction, keys: PressedArrows)
    ensures
        resolved_heading(current, keys) != current.opposite(),
        resolved_heading(current, keys) == current || resolved_heading(current, keys)
            == proposed_heading(current, keys),
{
}

} // verus!
