//! A ring, drawn as an outline of half blocks and quadrant blocks. Cells are
//! about twice as high as they are wide, so the ring is wider than it is high
//! and has eight sides: two flat ones, two upright ones and four slanted
//! corners between them.

use vstd::prelude::*;
use vstd::math::abs;
use vstd::relations::injective_on;
use vstd::set_lib::{lemma_int_range, lemma_map_size, set_int_range};
use super::{Coord, Overlay, Size};
use crate::color::Color;
use crate::odd::Odd;

verus! {

/// Upper half block: the flat side on top.
pub const TOP_HORIZONTAL: char = '\u{2580}';

/// Lower half block: the flat side at the bottom.
pub const BOTTOM_HORIZONTAL: char = '\u{2584}';

/// Left half block: the upright side left of the center.
pub const VERTICAL_LEFT: char = '\u{258C}';

/// Right half block: the upright side right of the center.
pub const VERTICAL_RIGHT: char = '\u{2590}';

/// Upper right and lower left quadrants: a corner that rises to the right.
pub const DIAGONAL_UP: char = '\u{259E}';

/// Upper left and lower right quadrants: a corner that falls to the right.
pub const DIAGONAL_DOWN: char = '\u{259A}';

/// How far the flat sides reach to the left and right of the center, and how
/// far above and below it they lie.
pub open spec fn radius(diameter: int) -> int {
    (diameter - 1) / 2
}

/// The number of rows, and of columns, that each slanted corner spans: two
/// fifths of the diameter, rounded down.
pub open spec fn diagonal_height(diameter: int) -> int {
    diameter * 2 / 5
}

/// The number of rows that the upright sides span.
pub open spec fn vertical_height(diameter: int) -> int {
    diameter - 2 * diagonal_height(diameter)
}

/// How far the upright sides reach above and below the center.
pub open spec fn vertical_radius(diameter: int) -> int {
    (vertical_height(diameter) - 1) / 2
}

/// The number of columns that the whole ring spans.
pub open spec fn total_width(diameter: int) -> int {
    diameter + 2 * diagonal_height(diameter)
}

/// How far to the left and right of the center the upright sides lie.
pub open spec fn vertical_column(diameter: int) -> int {
    (total_width(diameter) - 1) / 2
}

/// The glyph of the cell that lies `dx` columns left of the center and `dy`
/// rows above it (negative: right of it, below it), in a ring of the given
/// diameter.
///
/// The flat sides lie a radius above and below the center and reach a radius
/// to both sides. The upright sides lie in the outermost columns and reach a
/// vertical radius up and down. The rest of the band of columns under the
/// flat sides and of the band of rows beside the upright sides is empty. Of
/// the cells in the four corners outside both bands, those are drawn whose
/// steps past the one band and past the other come to one more than the
/// corner spans; the glyph rises to the right where the cell lies above and
/// left of the center or below and right of it, and falls otherwise.
pub open spec fn ring(diameter: int, dx: int, dy: int) -> Option<char> {
    let radius = radius(diameter);
    let vertical_radius = vertical_radius(diameter);
    if abs(dx) <= radius && dy == radius {
        Some(TOP_HORIZONTAL)
    } else if abs(dx) <= radius && dy == -radius {
        Some(BOTTOM_HORIZONTAL)
    } else if dx == vertical_column(diameter) && abs(dy) <= vertical_radius {
        Some(VERTICAL_LEFT)
    } else if dx == -vertical_column(diameter) && abs(dy) <= vertical_radius {
        Some(VERTICAL_RIGHT)
    } else if abs(dx) <= radius || abs(dy) <= vertical_radius {
        None
    } else if (abs(dx) - radius) + (abs(dy) - vertical_radius) - 1 == diagonal_height(diameter) {
        if (dx > 0) == (dy > 0) {
            Some(DIAGONAL_UP)
        } else {
            Some(DIAGONAL_DOWN)
        }
    } else {
        None
    }
}

/// A ring around a center cell.
#[derive(Debug, Clone, Copy, PartialEq, Eq)]
pub struct Circle {
    pub center: Coord,
    /// The number of columns that the flat sides span, and of rows from the
    /// one to the other.
    pub diameter: Odd,
    pub color: Color,
}

impl Circle {
    pub fn new(center: Coord, diameter: Odd, color: Color) -> (circle: Self)
        ensures
            circle == (Circle { center, diameter, color }),
    {
        Self { center, diameter, color }
    }

    /// How far the center lies to the right of, and below, the cell at `col`
    /// and `row`.
    pub open spec fn spec_offset_from_center(&self, col: int, row: int) -> (int, int) {
        (self.center.0 - col, self.center.1 - row)
    }

    pub fn offset_from_center(&self, coord: Coord) -> (offset: (i128, i128))
        ensures
            (offset.0 as int, offset.1 as int) == self.spec_offset_from_center(
                coord.0 as int,
                coord.1 as int,
            ),
    {
        (self.center.0 as i128 - coord.0 as i128, self.center.1 as i128 - coord.1 as i128)
    }
}

impl Overlay for Circle {
    type Foreground = Color;

    open spec fn color(&self) -> Color {
        self.color
    }

    open spec fn glyph(&self, col: int, row: int, size: Size) -> Option<char> {
        if size.contains(col, row) {
            ring(self.diameter@ as int, self.center.0 - col, self.center.1 - row)
        } else {
            None
        }
    }

    fn foreground(&self) -> (color: Color) {
        self.color
    }

    fn at_pos(&self, col: usize, row: usize, size: Size) -> (glyph: Option<char>) {
        if col >= size.width || row >= size.height {
            return None;
        }
        let diameter = self.diameter.value() as i128;
        let radius = (diameter - 1) / 2;

        let diagonal_height = (diameter * 2) / 5;
        let vertical_height = diameter - 2 * diagonal_height;
        let total_width = diameter + diagonal_height * 2;

        let offset = self.offset_from_center((col, row));
        let across = if offset.0 < 0 { -offset.0 } else { offset.0 };
        let upward = if offset.1 < 0 { -offset.1 } else { offset.1 };

        let col_is_vertical = across <= radius;

        if col_is_vertical && offset.1 == radius {
            return Some(TOP_HORIZONTAL);
        } else if col_is_vertical && offset.1 == -radius {
            return Some(BOTTOM_HORIZONTAL);
        }

        let vertical_radius = (vertical_height - 1) / 2;
        let vertical_column = (total_width - 1) / 2;

        if offset.0 == vertical_column && upward <= vertical_radius {
            return Some(VERTICAL_LEFT);
        } else if offset.0 == -vertical_column && upward <= vertical_radius {
            return Some(VERTICAL_RIGHT);
        }

        if across <= radius || upward <= vertical_radius {
            return None;
        }

        let added_offset = (across - radius) + (upward - vertical_radius) - 1;

        if added_offset == diagonal_height {
            if (offset.0 > 0) == (offset.1 > 0) {
                Some(DIAGONAL_UP)
            } else {
                Some(DIAGONAL_DOWN)
            }
        } else {
            None
        }
    }
}

/// A glyph as it looks in a mirror that stands upright: left and right
/// change places.
pub open spec fn flipped_sideways(glyph: Option<char>) -> Option<char> {
    if glyph == Some(VERTICAL_LEFT) {
        Some(VERTICAL_RIGHT)
    } else if glyph == Some(VERTICAL_RIGHT) {
        Some(VERTICAL_LEFT)
    } else if glyph == Some(DIAGONAL_UP) {
        Some(DIAGONAL_DOWN)
    } else if glyph == Some(DIAGONAL_DOWN) {
        Some(DIAGONAL_UP)
    } else {
        glyph
    }
}

/// A glyph as it looks in a mirror that lies flat: top and bottom change
/// places.
pub open spec fn flipped_upside_down(glyph: Option<char>) -> Option<char> {
    if glyph == Some(TOP_HORIZONTAL) {
        Some(BOTTOM_HORIZONTAL)
    } else if glyph == Some(BOTTOM_HORIZONTAL) {
        Some(TOP_HORIZONTAL)
    } else if glyph == Some(DIAGONAL_UP) {
        Some(DIAGONAL_DOWN)
    } else if glyph == Some(DIAGONAL_DOWN) {
        Some(DIAGONAL_UP)
    } else {
        glyph
    }
}

/// Whether the cell at the given offsets is drawn as part of a slanted
/// corner.
pub open spec fn on_corner(diameter: int, dx: int, dy: int) -> bool {
    ring(diameter, dx, dy) == Some(DIAGONAL_UP) || ring(diameter, dx, dy) == Some(DIAGONAL_DOWN)
}

/// The cells of one slanted corner, by their offsets: the corner left or
/// right of the center, above or below it.
pub open spec fn corner(diameter: int, left: bool, above: bool) -> Set<(int, int)> {
    Set::new(
        |cell: (int, int)|
            (cell.0 > 0) == left && (cell.1 > 0) == above && on_corner(diameter, cell.0, cell.1),
    )
}

/// The cell of a corner that lies `step` columns past the flat sides.
pub open spec fn corner_cell(diameter: int, left: bool, above: bool, step: int) -> (int, int) {
    let across = radius(diameter) + step;
    let upward = vertical_radius(diameter) + diagonal_height(diameter) + 1 - step;
    (
        if left {
            across
        } else {
            -across
        },
        if above {
            upward
        } else {
            -upward
        },
    )
}

/// The measures of a ring fit together: the upright sides stand a corner's
/// span outside the flat ones and reach a corner's span less far.
pub proof fn lemma_ring_measures(diameter: int)
    requires
        diameter >= 1,
        diameter % 2 == 1,
    ensures
        radius(diameter) >= 0,
        diagonal_height(diameter) >= 0,
        vertical_height(diameter) % 2 == 1,
        vertical_height(diameter) >= 1,
        vertical_radius(diameter) == radius(diameter) - diagonal_height(diameter),
        vertical_radius(diameter) >= 0,
        vertical_column(diameter) == radius(diameter) + diagonal_height(diameter),
        diameter >= 3 ==> diagonal_height(diameter) >= 1,
{
}

/// The upright sides are one cell wide. From diameter 3 on, each row within
/// a vertical radius of the center holds the left side's glyph in exactly one
/// cell and the right side's glyph in exactly one, the outermost cells of the
/// ring; no other row holds either.
pub proof fn lemma_upright_sides(diameter: int, dx: int, dy: int)
    requires
        diameter >= 3,
        diameter % 2 == 1,
    ensures
        ring(diameter, dx, dy) == Some(VERTICAL_LEFT) <==> dx == vertical_column(diameter) && abs(
            dy,
        ) <= vertical_radius(diameter),
        ring(diameter, dx, dy) == Some(VERTICAL_RIGHT) <==> dx == -vertical_column(diameter)
            && abs(dy) <= vertical_radius(diameter),
{
    lemma_ring_measures(diameter);
}

/// From diameter 3 on, the ring is the same on both sides of its center
/// column and on both sides of its center row: the mirrored cell shows the
/// mirrored glyph.
pub proof fn lemma_ring_mirrors(diameter: int, dx: int, dy: int)
    requires
        diameter >= 3,
        diameter % 2 == 1,
    ensures
        ring(diameter, -dx, dy) == flipped_sideways(ring(diameter, dx, dy)),
        ring(diameter, dx, -dy) == flipped_upside_down(ring(diameter, dx, dy)),
{
    lemma_ring_measures(diameter);
}

/// The four slanted corners are alike: each consists of as many cells as a
/// corner spans rows, one in each of its rows and columns.
pub proof fn lemma_corners_alike(diameter: int, left: bool, above: bool)
    requires
        diameter >= 1,
        diameter % 2 == 1,
    ensures
        corner(diameter, left, above).finite(),
        corner(diameter, left, above).len() == diagonal_height(diameter),
        forall|cell: (int, int)| #[trigger]
            corner(diameter, left, above).contains(cell) <==> exists|step: int|
                1 <= step <= diagonal_height(diameter) && cell == #[trigger] corner_cell(
                    diameter,
                    left,
                    above,
                    step,
                ),
{
    lemma_ring_measures(diameter);
    let span = diagonal_height(diameter);
    let steps = set_int_range(1, span + 1);
    let place = |step: int| corner_cell(diameter, left, above, step);
    let cells = corner(diameter, left, above);
    lemma_int_range(1, span + 1);
    assert forall|cell: (int, int)| #[trigger] cells.contains(cell) <==> exists|step: int|
        1 <= step <= span && cell == #[trigger] corner_cell(diameter, left, above, step) by {
        if cells.contains(cell) {
            let step = abs(cell.0) - radius(diameter);
            assert(cell == corner_cell(diameter, left, above, step));
        }
    }
    assert(steps.map(place) =~= cells) by {
        assert forall|cell: (int, int)| steps.map(place).contains(cell) == cells.contains(
            cell,
        ) by {
            if cells.contains(cell) {
                let step = choose|step: int|
                    1 <= step <= span && cell == #[trigger] corner_cell(
                        diameter,
                        left,
                        above,
                        step,
                    );
                assert(steps.contains(step) && place(step) == cell);
            }
        }
    }
    lemma_map_size(steps, cells, place);
}

/// On a grid, a ring of diameter 3 or more shows the glyph of its left side
/// in the cells of one column and nowhere else, and the glyph of its right
/// side in the cells of one other column: in each row within a vertical
/// radius of the center, each of the two glyphs stands in at most one cell,
/// and in exactly one where the grid holds the ring's outermost columns.
pub proof fn lemma_circle_upright_sides(circle: Circle, size: Size, col: int, row: int)
    requires
        circle.diameter@ >= 3,
        circle.diameter@ % 2 == 1,
    ensures
        circle.glyph(col, row, size) == Some(VERTICAL_LEFT) <==> {
            &&& size.contains(col, row)
            &&& col == circle.center.0 - vertical_column(circle.diameter@ as int)
            &&& abs(circle.center.1 - row) <= vertical_radius(circle.diameter@ as int)
        },
        circle.glyph(col, row, size) == Some(VERTICAL_RIGHT) <==> {
            &&& size.contains(col, row)
            &&& col == circle.center.0 + vertical_column(circle.diameter@ as int)
            &&& abs(circle.center.1 - row) <= vertical_radius(circle.diameter@ as int)
        },
{
    lemma_upright_sides(circle.diameter@ as int, circle.center.0 - col, circle.center.1 - row);
}

} // verus!
