//! A single character in the middle of the grid.

use vstd::prelude::*;
use super::{Coord, Overlay, Size};
use crate::color::Color;

verus! {

/// One character, shown in one cell.
#[derive(Debug, Clone, Copy, PartialEq, Eq)]
pub struct OverlayCharachter {
    pub char: char,
    pub color: Color,
    pub coord: Coord,
}

impl OverlayCharachter {
    /// The character in the center cell of a grid of the given size.
    pub fn new_centered(char: char, color: Color, size: Size) -> (overlay: Self)
        ensures
            overlay == (OverlayCharachter { char, color, coord: size.center() }),
    {
        Self { char, color, coord: size.center() }
    }
}

impl Overlay for OverlayCharachter {
    type Foreground = Color;

    open spec fn color(&self) -> Color {
        self.color
    }

    /// The character in its own cell, where the grid has that cell, and
    /// nothing anywhere else.
    open spec fn glyph(&self, col: int, row: int, size: Size) -> Option<char> {
        if size.contains(col, row) && col == self.coord.0 && row == self.coord.1 {
            Some(self.char)
        } else {
            None
        }
    }

    fn foreground(&self) -> (color: Color) {
        self.color
    }

    fn at_pos(&self, col: usize, row: usize, size: Size) -> (glyph: Option<char>) {
        if col < size.width && row < size.height && self.coord.0 == col && self.coord.1 == row {
            Some(self.char)
        } else {
            None
        }
    }
}

} // verus!
