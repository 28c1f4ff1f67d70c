//! The update core of a grid-based Snake game: headings, the entity
//! registry, the fixed-tick step of the segment chain, food placement and
//! the grid-to-display transform, each with a contract that Verus proves.

pub mod heading;
pub mod grid;
pub mod registry;
pub mod input;
pub mod game;
pub mod food;
pub mod display;
