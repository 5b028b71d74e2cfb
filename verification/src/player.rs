//! Player related logic: controls and animations.

/// The player's animations: which one plays, and how.
pub mod animations;
/// The player's input: bindings, movement and jumping.
pub mod input;
