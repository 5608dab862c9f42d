use vstd::prelude::*;

/// Glyph matrices and the objects that place them on screen.
pub mod object;

pub use object::{Obj, Sprite, SpriteError};

verus! {

/// Terminal position: column and row, both counted from 1.
#[derive(Debug, Clone, Copy, PartialEq, Eq, Structural)]
pub struct Pos {
    /// Column.
    pub col: u16,
    /// Row.
    pub row: u16,
}

/// Size of an object: width and height in cells.
#[derive(Debug, Clone, Copy, PartialEq, Eq, Structural)]
pub struct Size {
    /// Horizontal size.
    pub width: u16,
    /// Vertical size.
    pub height: u16,
}

} // verus!
