//! A wedge on the left edge of the grid. Its slanted sides are drawn with
//! quadrant blocks, so that a staircase of full blocks reads as one edge.

use vstd::prelude::*;
use vstd::arithmetic::mul::lemma_mul_inequality;
use vstd::std_specs::convert::FromSpecImpl;
use super::{Coord, Overlay, Size};
use crate::color::Color;

verus! {

/// How many columns a wedge's edge moves from one row to the next. Never
/// zero: a wedge whose edge does not move would be a rectangle.
#[derive(Debug, Clone, Copy, PartialEq, Eq, Structural)]
pub struct Slope {
    columns: usize,
}

impl Slope {
    #[verifier::type_invariant]
    spec fn positive(self) -> bool {
        self.columns > 0
    }

    /// The number of columns per row.
    pub closed spec fn view(&self) -> nat {
        self.columns as nat
    }

    /// A slope of `columns` per row, or `None` for zero.
    pub fn new(columns: usize) -> (slope: Option<Self>)
        ensures
            slope is Some <==> columns > 0,
            slope matches Some(s) ==> s@ == columns,
    {
        if columns > 0 {
            Some(Self { columns })
        } else {
            None
        }
    }

    pub fn get(&self) -> (columns: usize)
        ensures
            columns == self@,
            columns > 0,
    {
        proof {
            use_type_invariant(self);
        }
        self.columns
    }
}

/// The part of a wedge that a row belongs to.
#[derive(Debug, Clone, Copy, PartialEq, Eq, Structural)]
pub enum Region {
    Top,
    Center,
    Bottom,
}

impl Region {
    /// The region of `row` in a wedge of `height` rows: the rows above the
    /// middle are the top, those below it the bottom, and where the height is
    /// odd the middle row is the center.
    pub open spec fn of(height: int, row: int) -> Region {
        if row < height / 2 {
            Region::Top
        } else if height % 2 == 1 && row == height / 2 {
            Region::Center
        } else {
            Region::Bottom
        }
    }

    /// The region on the other side of the middle.
    pub open spec fn mirrored(self) -> Region {
        match self {
            Region::Top => Region::Bottom,
            Region::Center => Region::Center,
            Region::Bottom => Region::Top,
        }
    }

    /// The glyph that draws the wedge's edge in this region.
    pub open spec fn edge(self) -> TriangleChar {
        match self {
            Region::Top => TriangleChar::UpperDiagonal,
            Region::Center => TriangleChar::CenterHalf,
            Region::Bottom => TriangleChar::LowerDiagonal,
        }
    }

    pub fn at_pos(height: usize, row: usize) -> (region: Self)
        ensures
            region == Region::of(height as int, row as int),
    {
        if height % 2 == 1 && height / 2 == row {
            Self::Center
        } else if height / 2 <= row {
            Self::Bottom
        } else {
            Self::Top
        }
    }
}

/// The glyphs of a wedge.
#[derive(Debug, Clone, Copy, PartialEq, Eq, Structural)]
pub enum TriangleChar {
    /// A full block, inside the wedge.
    Fill,
    /// The edge above the middle: all quadrants but the upper right.
    UpperDiagonal,
    /// The edge below the middle: all quadrants but the lower right.
    LowerDiagonal,
    /// The tip, on the middle row: the left half block.
    CenterHalf,
}

impl From<Region> for TriangleChar {
    fn from(value: Region) -> (glyph: Self) {
        match value {
            Region::Top => TriangleChar::UpperDiagonal,
            Region::Center => TriangleChar::CenterHalf,
            Region::Bottom => TriangleChar::LowerDiagonal,
        }
    }
}

impl FromSpecImpl<Region> for TriangleChar {
    open spec fn obeys_from_spec() -> bool {
        true
    }

    open spec fn from_spec(value: Region) -> Self {
        value.edge()
    }
}

impl From<TriangleChar> for char {
    fn from(value: TriangleChar) -> (glyph: Self) {
        match value {
            TriangleChar::Fill => '\u{2588}',
            TriangleChar::UpperDiagonal => '\u{2599}',
            TriangleChar::LowerDiagonal => '\u{259B}',
            TriangleChar::CenterHalf => '\u{258C}',
        }
    }
}

impl FromSpecImpl<TriangleChar> for char {
    open spec fn obeys_from_spec() -> bool {
        true
    }

    open spec fn from_spec(value: TriangleChar) -> Self {
        value.glyph()
    }
}

/// A row counted from the nearer end of the wedge: rows below the middle are
/// counted upward from the last row.
pub open spec fn effective_row(height: int, row: int) -> int {
    if Region::of(height, row) == Region::Bottom {
        height - row - 1
    } else {
        row
    }
}

/// The column of the wedge's edge in `row`: `slope` columns further right
/// with each row toward the middle, starting `insert` columns in. The cells
/// left of it are filled, so this is also how many filled cells the row has.
pub open spec fn boundary(height: int, slope: int, row: int, insert: int) -> int {
    effective_row(height, row) * slope + insert
}

/// Twice the distance of `row` from the vertical middle of `height` rows.
pub open spec fn center_distance(height: int, row: int) -> int {
    if 2 * row >= height - 1 {
        2 * row - (height - 1)
    } else {
        (height - 1) - 2 * row
    }
}

impl TriangleChar {
    /// The character that draws this glyph.
    pub open spec fn glyph(self) -> char {
        match self {
            TriangleChar::Fill => '\u{2588}',
            TriangleChar::UpperDiagonal => '\u{2599}',
            TriangleChar::LowerDiagonal => '\u{259B}',
            TriangleChar::CenterHalf => '\u{258C}',
        }
    }

    /// The same glyph on the other side of the middle.
    pub open spec fn mirrored(self) -> TriangleChar {
        match self {
            TriangleChar::UpperDiagonal => TriangleChar::LowerDiagonal,
            TriangleChar::LowerDiagonal => TriangleChar::UpperDiagonal,
            other => other,
        }
    }

    /// The glyph of the cell at `col` and `row` in a wedge of `height` rows:
    /// a full block left of the row's boundary, the region's edge glyph on
    /// it, nothing right of it, and nothing in rows that the wedge lacks.
    pub open spec fn select(height: int, slope: int, col: int, row: int, insert: int) -> Option<
        TriangleChar,
    > {
        if !(0 <= row < height) {
            None
        } else if col < boundary(height, slope, row, insert) {
            Some(TriangleChar::Fill)
        } else if col == boundary(height, slope, row, insert) {
            Some(Region::of(height, row).edge())
        } else {
            None
        }
    }

    pub fn at_pos(height: usize, slope: Slope, coord: Coord, insert: usize) -> (glyph: Option<Self>)
        ensures
            glyph == TriangleChar::select(
                height as int,
                slope@ as int,
                coord.0 as int,
                coord.1 as int,
                insert as int,
            ),
    {
        let (col, row) = coord;
        if row >= height {
            return None;
        }
        let region = Region::at_pos(height, row);
        let actual_row = if let Region::Bottom = region {
            height - row - 1
        } else {
            row
        };
        // A boundary that does not fit in a machine word lies right of every column.
        let filler_width = match actual_row.checked_mul(slope.get()) {
            Some(run) => run.checked_add(insert),
            None => None,
        };
        match filler_width {
            Some(filler_width) => {
                if filler_width == col {
                    Some(TriangleChar::from(region))
                } else if col < filler_width {
                    Some(TriangleChar::Fill)
                } else {
                    None
                }
            },
            None => Some(TriangleChar::Fill),
        }
    }
}

/// A wedge on the left edge of the grid, pointing right.
#[derive(Debug, Clone, Copy, PartialEq, Eq, Structural)]
pub struct Triangle {
    /// Rows left free above and below the wedge.
    pub padding: usize,
    /// Columns by which the whole wedge is moved to the right.
    pub insert: usize,
    pub slope: Slope,
    pub color: Color,
}

impl Triangle {
    pub fn new(padding: usize, insert: usize, slope: Slope, color: Color) -> (triangle: Self)
        ensures
            triangle == (Triangle { padding, insert, slope, color }),
    {
        Self { padding, insert, slope, color }
    }
}

impl Overlay for Triangle {
    type Foreground = Color;

    open spec fn color(&self) -> Color {
        self.color
    }

    /// Inside the grid and between the paddings, the glyph of a wedge that is
    /// as high as the rows between the paddings.
    open spec fn glyph(&self, col: int, row: int, size: Size) -> Option<char> {
        if size.contains(col, row) && self.padding <= row < size.height - self.padding {
            match TriangleChar::select(
                size.height - 2 * self.padding,
                self.slope@ as int,
                col,
                row - self.padding,
                self.insert as int,
            ) {
                Some(glyph) => Some(glyph.glyph()),
                None => None,
            }
        } else {
            None
        }
    }

    fn foreground(&self) -> (color: Color) {
        self.color
    }

    fn at_pos(&self, col: usize, row: usize, size: Size) -> (glyph: Option<char>) {
        let padding = self.padding;
        if col >= size.width || row < padding || row >= size.height.saturating_sub(padding) {
            return None;
        }
        match TriangleChar::at_pos(
            size.height - padding * 2,
            self.slope,
            (col, row - padding),
            self.insert,
        ) {
            Some(glyph) => Some(char::from(glyph)),
            None => None,
        }
    }
}

/// Every row's distance from the middle and its count from the nearer end
/// add up to the same: the nearer the middle, the higher the count.
pub proof fn lemma_effective_row_by_distance(height: int, row: int)
    requires
        0 <= row < height,
    ensures
        center_distance(height, row) == height - 1 - 2 * effective_row(height, row),
        0 <= effective_row(height, row) <= row,
{
}

/// The wedge widens toward the middle: of two rows, the one that is as near
/// to the vertical center as the other, or nearer, has as many filled cells
/// or more, and every cell that is filled in the farther row is filled in the
/// nearer one too.
pub proof fn lemma_wedge_widens_toward_center(
    height: int,
    slope: int,
    insert: int,
    near: int,
    far: int,
)
    requires
        0 <= near < height,
        0 <= far < height,
        slope > 0,
        center_distance(height, near) <= center_distance(height, far),
    ensures
        boundary(height, slope, far, insert) <= boundary(height, slope, near, insert),
        forall|col: int|
            TriangleChar::select(height, slope, col, far, insert) == Some(TriangleChar::Fill)
                ==> #[trigger] TriangleChar::select(height, slope, col, near, insert) == Some(
                TriangleChar::Fill,
            ),
{
    lemma_effective_row_by_distance(height, near);
    lemma_effective_row_by_distance(height, far);
    lemma_mul_inequality(effective_row(height, far), effective_row(height, near), slope);
}

/// On a grid of any size, a wedge of any slope widens toward the middle: of
/// two rows of the grid, the one that is as near to the vertical center as
/// the other, or nearer, has a full block wherever the farther one has.
pub proof fn lemma_triangle_widens_toward_center(
    triangle: Triangle,
    size: Size,
    near: int,
    far: int,
)
    requires
        triangle.slope@ > 0,
        0 <= near < size.height,
        0 <= far < size.height,
        center_distance(size.height as int, near) <= center_distance(size.height as int, far),
    ensures
        forall|col: int|
            triangle.glyph(col, far, size) == Some(TriangleChar::Fill.glyph())
                ==> #[trigger] triangle.glyph(col, near, size) == Some(TriangleChar::Fill.glyph()),
{
    let padding = triangle.padding as int;
    let height = size.height - 2 * padding;
    if padding <= far < size.height - padding {
        lemma_wedge_widens_toward_center(
            height,
            triangle.slope@ as int,
            triangle.insert as int,
            near - padding,
            far - padding,
        );
    }
}

/// The wedge is the same above and below its middle. Counted from the other
/// end, a row lies in the mirrored region and has the same boundary, so each
/// of its cells shows the mirrored glyph.
pub proof fn lemma_wedge_mirrors(height: int, slope: int, insert: int, col: int, row: int)
    requires
        0 <= row < height,
    ensures
        Region::of(height, height - 1 - row) == Region::of(height, row).mirrored(),
        effective_row(height, height - 1 - row) == effective_row(height, row),
        boundary(height, slope, height - 1 - row, insert) == boundary(height, slope, row, insert),
        TriangleChar::select(height, slope, col, height - 1 - row, insert) == match TriangleChar::select(
            height,
            slope,
            col,
            row,
            insert,
        ) {
            Some(glyph) => Some(glyph.mirrored()),
            None => None,
        },
{
}

/// What a cell shows on the other side of the middle: the two slanted edges
/// change places, and everything else stays.
pub open spec fn mirrored_glyph(glyph: Option<char>) -> Option<char> {
    if glyph == Some(TriangleChar::UpperDiagonal.glyph()) {
        Some(TriangleChar::LowerDiagonal.glyph())
    } else if glyph == Some(TriangleChar::LowerDiagonal.glyph()) {
        Some(TriangleChar::UpperDiagonal.glyph())
    } else {
        glyph
    }
}

/// On a grid of any size, a wedge is the same above and below the middle of
/// the grid: the row that is as far from the last row as `row` is from the
/// first shows the mirrored glyphs.
pub proof fn lemma_triangle_mirrors(triangle: Triangle, size: Size, col: int, row: int)
    requires
        0 <= row < size.height,
    ensures
        triangle.glyph(col, size.height - 1 - row, size) == mirrored_glyph(
            triangle.glyph(col, row, size),
        ),
{
    let padding = triangle.padding as int;
    if padding <= row < size.height - padding {
        lemma_wedge_mirrors(
            size.height - 2 * padding,
            triangle.slope@ as int,
            triangle.insert as int,
            col,
            row - padding,
        );
    }
}

} // verus!
