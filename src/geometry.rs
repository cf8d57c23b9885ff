use vstd::prelude::*;

verus! {

/// A cell on the screen, or a column/row pair in document coordinates.
#[derive(Clone, Copy, Debug, Default, PartialEq, Eq, Structural)]
pub struct Position {
    pub col: usize,
    pub row: usize,
}

/// The extent of a screen area, in character cells.
#[derive(Clone, Copy, Debug, Default, PartialEq, Eq, Structural)]
pub struct Size {
    pub width: usize,
    pub height: usize,
}

/// A cursor position in document coordinates: a line, and a grapheme of it.
#[derive(Clone, Copy, Debug, Default, PartialEq, Eq, Structural)]
pub struct Location {
    pub grapheme_index: usize,
    pub line_index: usize,
}

impl Position {
    /// Componentwise difference; `other` must not lie right of or below `self`.
    pub fn subtract(&self, other: &Self) -> (r: Self)
        requires
            other.col <= self.col,
            other.row <= self.row,
        ensures
            r.col == self.col - other.col,
            r.row == self.row - other.row,
    {
        Position { col: self.col - other.col, row: self.row - other.row }
    }
}

} // verus!
