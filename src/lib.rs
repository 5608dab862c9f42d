//! A terminal runner game: a player glyph jumps over procedurally generated
//! obstacles while a parallax background scrolls by.
//!
//! Everything that decides what happens on a frame lives here: glyph
//! matrices, scrolling layers, the stage, the obstacle generator and its hit
//! test, the player's movement queue, the score and the per-frame runner.
//! Drawing to a terminal and reading keys are left to the caller.

/// The game components.
pub mod components;
/// Glyph matrices and positioned objects.
pub mod graphics;
/// The game as a whole and its per-frame control.
pub mod game;
/// Conversions between text and character sequences.
pub mod text;
