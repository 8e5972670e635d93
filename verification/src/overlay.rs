//! Decorations that are laid over the stripes of a banner, and the grid on
//! which they are drawn.

pub mod charachter;
pub mod circle;
pub mod triangle;

use vstd::prelude::*;
use crate::color::{AnsiCode, Color};
use self::charachter::OverlayCharachter;
use self::circle::Circle;
use self::triangle::Triangle;

verus! {

/// A shape on the grid. For each cell it either shows a glyph of its own, in
/// its foreground color, or lets what lies beneath it show through.
pub trait Overlay {
    type Foreground: AnsiCode;

    /// The color in which the shape's glyphs are drawn.
    spec fn color(&self) -> Self::Foreground;

    /// The glyph that the shape shows in the cell at `col` and `row` of a grid
    /// of the given size, or `None` where the shape leaves the cell alone.
    spec fn glyph(&self, col: int, row: int, size: Size) -> Option<char>;

    fn foreground(&self) -> (color: Self::Foreground)
        ensures
            color == self.color(),
    ;

    /// No shape shows anything outside the grid.
    fn at_pos(&self, col: usize, row: usize, size: Size) -> (glyph: Option<char>)
        ensures
            glyph == self.glyph(col as int, row as int, size),
            glyph is Some ==> size.contains(col as int, row as int),
    ;
}

/// Dimensions of a character grid, in cells.
#[derive(Debug, Clone, Copy, PartialEq, Eq, Structural)]
pub struct Size {
    pub height: usize,
    pub width: usize,
}

/// A cell of the grid: its column, then its row, both counted from zero.
/// Columns grow to the right and rows grow downward.
pub type Coord = (usize, usize);

impl Size {
    pub fn new(height: usize, width: usize) -> (size: Self)
        ensures
            size == (Size { height, width }),
    {
        Self { height, width }
    }

    /// The center cell: half the width and half the height, both rounded
    /// down. Where a dimension is even this is the cell just past the middle.
    pub open spec fn spec_center(&self) -> Coord {
        ((self.width / 2) as usize, (self.height / 2) as usize)
    }

    #[verifier::when_used_as_spec(spec_center)]
    pub fn center(&self) -> (center: Coord)
        ensures
            center == self.spec_center(),
    {
        (self.width / 2, self.height / 2)
    }

    /// Whether the grid has a cell at `col` and `row`.
    pub open spec fn contains(&self, col: int, row: int) -> bool {
        0 <= col < self.width && 0 <= row < self.height
    }
}

/// Any of the shapes that a banner can carry.
#[derive(Debug, Clone, Copy, PartialEq, Eq)]
pub enum Decoration {
    Triangle(Triangle),
    Circle(Circle),
    Charachter(OverlayCharachter),
}

impl Overlay for Decoration {
    type Foreground = Color;

    open spec fn color(&self) -> Color {
        match self {
            Decoration::Triangle(triangle) => triangle.color(),
            Decoration::Circle(circle) => circle.color(),
            Decoration::Charachter(charachter) => charachter.color(),
        }
    }

    open spec fn glyph(&self, col: int, row: int, size: Size) -> Option<char> {
        match self {
            Decoration::Triangle(triangle) => triangle.glyph(col, row, size),
            Decoration::Circle(circle) => circle.glyph(col, row, size),
            Decoration::Charachter(charachter) => charachter.glyph(col, row, size),
        }
    }

    fn foreground(&self) -> (color: Color) {
        match self {
            Decoration::Triangle(triangle) => triangle.foreground(),
            Decoration::Circle(circle) => circle.foreground(),
            Decoration::Charachter(charachter) => charachter.foreground(),
        }
    }

    fn at_pos(&self, col: usize, row: usize, size: Size) -> (glyph: Option<char>) {
        match self {
            Decoration::Triangle(triangle) => triangle.at_pos(col, row, size),
            Decoration::Circle(circle) => circle.at_pos(col, row, size),
            Decoration::Charachter(charachter) => charachter.at_pos(col, row, size),
        }
    }
}

} // verus!
