//! Laying the decorations over the stripes, cell by cell, and writing the
//! result as lines of text for a terminal.
//!
//! Each cell is written as its fill color, then its text color, then its
//! glyph. The decorations are given front to back. The first one that shows a
//! glyph in a cell is the one that is seen there, in its own color. What lies
//! behind that glyph is the next decoration that also shows one in the cell,
//! or else the stripe.

use vstd::prelude::*;
use vstd::arithmetic::div_mod::{lemma_div_multiples_vanish, lemma_fundamental_div_mod};
use vstd::string::StringExecFns;
use crate::color::{AnsiCode, RESET};
use crate::flag::FallbackedColor;
use crate::overlay::{Overlay, Size};

verus! {

/// The width of a banner where none is asked for and the terminal's is not
/// known, and the most that a banner takes of a terminal by itself.
pub const DEFAULT_WIDTH: usize = 71;

/// The height of a banner where none is asked for.
pub const DEFAULT_HEIGHT: usize = 15;

/// The grid of a banner with so many stripes. Its width is the one asked
/// for; without one, the terminal's, but no more than the default; without
/// either, the default. Its height is the one asked for, or else the default,
/// less the rows that cannot be shared out evenly among the stripes.
pub open spec fn spec_grid(
    width: Option<usize>,
    terminal_width: Option<usize>,
    height: Option<usize>,
    stripes: usize,
) -> Size {
    let height = match height {
        Some(height) => height,
        None => DEFAULT_HEIGHT,
    };
    Size {
        height: (height / stripes * stripes) as usize,
        width: match (width, terminal_width) {
            (Some(width), _) => width,
            (None, Some(terminal)) => if terminal < DEFAULT_WIDTH {
                terminal
            } else {
                DEFAULT_WIDTH
            },
            (None, None) => DEFAULT_WIDTH,
        },
    }
}

#[verifier::when_used_as_spec(spec_grid)]
pub fn grid(
    width: Option<usize>,
    terminal_width: Option<usize>,
    height: Option<usize>,
    stripes: usize,
) -> (size: Size)
    requires
        stripes > 0,
    ensures
        size == spec_grid(width, terminal_width, height, stripes),
        size.height % stripes == 0,
        size.height <= match height {
            Some(height) => height,
            None => DEFAULT_HEIGHT,
        },
{
    let width = match width {
        Some(width) => width,
        None => match terminal_width {
            Some(terminal) => if terminal < DEFAULT_WIDTH {
                terminal
            } else {
                DEFAULT_WIDTH
            },
            None => DEFAULT_WIDTH,
        },
    };
    let height = match height {
        Some(height) => height,
        None => DEFAULT_HEIGHT,
    };
    let stripe_height = height / stripes;
    proof {
        lemma_fundamental_div_mod(height as int, stripes as int);
        assert(stripe_height * stripes == stripes * stripe_height) by (nonlinear_arith);
        assert((stripe_height * stripes) % (stripes as int) == 0) by (nonlinear_arith)
            requires
                stripes > 0,
        ;
    }
    let height = stripe_height * stripes;
    Size::new(height, width)
}

/// The stripe that a row lies in, where `height` rows are shared out among
/// `stripes` stripes of equal height, as many rows each as fit. Rows that are
/// left over at the bottom belong to the last stripe. Where there are more
/// stripes than rows, each row is a stripe of its own and the later stripes
/// are not seen.
pub open spec fn stripe_of(row: int, height: int, stripes: int) -> int {
    let band = if height / stripes == 0 {
        1
    } else {
        height / stripes
    };
    if row / band < stripes {
        row / band
    } else {
        stripes - 1
    }
}

/// Where the stripes share the rows of a grid evenly, all stripes are equally
/// high: the stripe of a row is the row divided by the height of a stripe,
/// and each stripe is seen.
pub proof fn lemma_stripes_share_evenly(row: int, height: int, stripes: int)
    requires
        stripes > 0,
        height % stripes == 0,
        0 <= row < height,
    ensures
        stripe_of(row, height, stripes) == row / (height / stripes),
        0 <= stripe_of(row, height, stripes) < stripes,
        forall|stripe: int|
            0 <= stripe < stripes ==> #[trigger] stripe_of(
                stripe * (height / stripes),
                height,
                stripes,
            ) == stripe,
{
    let band = height / stripes;
    lemma_fundamental_div_mod(height, stripes);
    assert(band >= 1) by (nonlinear_arith)
        requires
            height == stripes * band,
            height > 0,
            stripes > 0,
    ;
    assert(0 <= row / band < stripes) by (nonlinear_arith)
        requires
            0 <= row < stripes * band,
            band >= 1,
            stripes > 0,
    ;
    assert forall|stripe: int| 0 <= stripe < stripes implies #[trigger] stripe_of(
        stripe * band,
        height,
        stripes,
    ) == stripe by {
        lemma_div_multiples_vanish(stripe, band);
    }
}

pub fn stripe_index(row: usize, height: usize, stripes: usize) -> (index: usize)
    requires
        stripes > 0,
    ensures
        index == stripe_of(row as int, height as int, stripes as int),
        index < stripes,
{
    let stripe_height = height / stripes;
    let band = if stripe_height == 0 {
        1
    } else {
        stripe_height
    };
    if row / band < stripes {
        row / band
    } else {
        stripes - 1
    }
}

/// The first decoration, from position `from` on, that shows a glyph in the
/// cell.
pub open spec fn first_match<O: Overlay>(
    overlays: Seq<O>,
    from: int,
    col: int,
    row: int,
    size: Size,
) -> Option<int>
    decreases overlays.len() - from,
{
    if from < 0 || from >= overlays.len() {
        None
    } else if overlays[from].glyph(col, row, size) is Some {
        Some(from)
    } else {
        first_match(overlays, from + 1, col, row, size)
    }
}

/// The fill of a cell whose glyph comes from the decoration at position
/// `seen`: the color of the next decoration that shows a glyph there too, or
/// else the stripe's.
pub open spec fn backdrop<O: Overlay>(
    overlays: Seq<O>,
    stripe: Seq<char>,
    seen: int,
    col: int,
    row: int,
    size: Size,
) -> Seq<char> {
    match first_match(overlays, seen + 1, col, row, size) {
        Some(behind) => overlays[behind].color().bg_code(),
        None => stripe,
    }
}

/// The text of one cell, on a stripe whose fill is selected by `stripe`:
/// the fill and a blank where no decoration shows a glyph; else the fill
/// behind the glyph, the color of the first decoration that shows one, and
/// its glyph.
pub open spec fn cell<O: Overlay>(
    overlays: Seq<O>,
    stripe: Seq<char>,
    col: int,
    row: int,
    size: Size,
) -> Seq<char> {
    match first_match(overlays, 0, col, row, size) {
        Some(seen) => backdrop(overlays, stripe, seen, col, row, size)
            + overlays[seen].color().fg_code() + seq![
            overlays[seen].glyph(col, row, size).unwrap(),
        ],
        None => stripe + seq![' '],
    }
}

/// The text of the first `count` cells of a row.
pub open spec fn cells<O: Overlay>(
    overlays: Seq<O>,
    stripe: Seq<char>,
    count: int,
    row: int,
    size: Size,
) -> Seq<char>
    decreases count,
{
    if count <= 0 {
        Seq::empty()
    } else {
        cells(overlays, stripe, count - 1, row, size) + cell(
            overlays,
            stripe,
            count - 1,
            row,
            size,
        )
    }
}

/// The text of a row: its cells from left to right, then the reset.
pub open spec fn line<O: Overlay>(
    overlays: Seq<O>,
    stripe: Seq<char>,
    row: int,
    size: Size,
) -> Seq<char> {
    cells(overlays, stripe, size.width as int, row, size) + RESET@
}

/// The text of a banner: one line for each row of the grid, from the top.
pub open spec fn banner<O: Overlay>(
    size: Size,
    stripes: Seq<FallbackedColor>,
    overlays: Seq<O>,
    true_color: bool,
) -> Seq<Seq<char>> {
    Seq::new(
        size.height as nat,
        |row: int|
            line(
                overlays,
                stripes[stripe_of(row, size.height as int, stripes.len() as int)].bg_code(
                    true_color,
                ),
                row,
                size,
            ),
    )
}

/// What `first_match` finds is a decoration that shows a glyph in the cell,
/// and none between `from` and it does. Where it finds nothing, none from
/// `from` on shows a glyph there.
pub proof fn lemma_first_match<O: Overlay>(
    overlays: Seq<O>,
    from: int,
    col: int,
    row: int,
    size: Size,
)
    requires
        0 <= from,
    ensures
        match first_match(overlays, from, col, row, size) {
            Some(seen) => {
                &&& from <= seen < overlays.len()
                &&& overlays[seen].glyph(col, row, size) is Some
                &&& forall|i: int| from <= i < seen ==> overlays[i].glyph(col, row, size) is None
            },
            None => forall|i: int|
                from <= i < overlays.len() ==> overlays[i].glyph(col, row, size) is None,
        },
    decreases overlays.len() - from,
{
    if from < overlays.len() && overlays[from].glyph(col, row, size) is None {
        lemma_first_match(overlays, from + 1, col, row, size);
    }
}

/// A glyph with no decoration behind it stands on its stripe: where none of
/// the decorations after the one that is seen shows a glyph in the cell, the
/// cell is filled with the stripe's color.
pub proof fn lemma_backdrop_is_stripe<O: Overlay>(
    overlays: Seq<O>,
    stripe: Seq<char>,
    seen: int,
    col: int,
    row: int,
    size: Size,
)
    requires
        0 <= seen < overlays.len(),
        forall|i: int| seen < i < overlays.len() ==> overlays[i].glyph(col, row, size) is None,
    ensures
        backdrop(overlays, stripe, seen, col, row, size) == stripe,
        first_match(overlays, 0, col, row, size) == Some(seen) ==> cell(
            overlays,
            stripe,
            col,
            row,
            size,
        ) == stripe + overlays[seen].color().fg_code() + seq![
            overlays[seen].glyph(col, row, size).unwrap(),
        ],
{
    lemma_first_match(overlays, seen + 1, col, row, size);
}

/// Where no decoration shows a glyph in a cell, or there is no decoration at
/// all, the cell is a blank on its stripe.
pub proof fn lemma_bare_cell<O: Overlay>(
    overlays: Seq<O>,
    stripe: Seq<char>,
    col: int,
    row: int,
    size: Size,
)
    requires
        forall|i: int| 0 <= i < overlays.len() ==> overlays[i].glyph(col, row, size) is None,
    ensures
        cell(overlays, stripe, col, row, size) == stripe + seq![' '],
{
    lemma_first_match(overlays, 0, col, row, size);
}

/// The text of a banner is determined by the grid, the stripes, the
/// decorations and the kind of terminal: two renderings of the same are the
/// same text.
pub proof fn lemma_rendering_is_repeatable<O: Overlay>(
    size: Size,
    stripes: Seq<FallbackedColor>,
    overlays: Seq<O>,
    true_color: bool,
    first: Seq<Seq<char>>,
    second: Seq<Seq<char>>,
)
    requires
        first == banner(size, stripes, overlays, true_color),
        second == banner(size, stripes, overlays, true_color),
    ensures
        first == second,
{
}

/// Looks for the first decoration, from position `from` on, that shows a
/// glyph in the cell, and gives its position and the glyph.
pub fn find_overlay<O: Overlay>(
    overlays: &Vec<O>,
    from: usize,
    col: usize,
    row: usize,
    size: Size,
) -> (found: Option<(usize, char)>)
    ensures
        match found {
            Some((seen, glyph)) => {
                &&& first_match(overlays@, from as int, col as int, row as int, size) == Some(
                    seen as int,
                )
                &&& from <= seen < overlays.len()
                &&& overlays[seen as int].glyph(col as int, row as int, size) == Some(glyph)
            },
            None => first_match(overlays@, from as int, col as int, row as int, size) is None,
        },
{
    let mut index = from;
    while index < overlays.len()
        invariant
            from <= index,
            first_match(overlays@, from as int, col as int, row as int, size) == first_match(
                overlays@,
                index as int,
                col as int,
                row as int,
                size,
            ),
        decreases overlays.len() - index,
    {
        if let Some(glyph) = overlays[index].at_pos(col, row, size) {
            return Some((index, glyph));
        }
        index += 1;
    }
    None
}

/// Appends the text of one cell to `line`.
pub fn render_cell<O: Overlay>(
    line: &mut String,
    overlays: &Vec<O>,
    stripe: &str,
    col: usize,
    row: usize,
    size: Size,
)
    ensures
        final(line)@ == old(line)@ + cell(overlays@, stripe@, col as int, row as int, size),
{
    match find_overlay(overlays, 0, col, row, size) {
        Some((seen, glyph)) => {
            let fg = overlays[seen].foreground().fg();
            match find_overlay(overlays, seen + 1, col, row, size) {
                Some((behind, _)) => {
                    let bg = overlays[behind].foreground().bg();
                    line.append(bg.as_str());
                },
                None => {
                    line.append(stripe);
                },
            }
            line.append(fg.as_str());
            line.push(glyph);
        },
        None => {
            line.append(stripe);
            line.push(' ');
        },
    }
}

/// The text of one row on a stripe whose fill is selected by `stripe`.
pub fn render_line<O: Overlay>(overlays: &Vec<O>, stripe: &str, row: usize, size: Size) -> (text:
    String)
    ensures
        text@ == line(overlays@, stripe@, row as int, size),
{
    let mut text = String::new();
    let mut col: usize = 0;
    while col < size.width
        invariant
            col <= size.width,
            text@ == cells(overlays@, stripe@, col as int, row as int, size),
        decreases size.width - col,
    {
        render_cell(&mut text, overlays, stripe, col, row, size);
        col += 1;
    }
    text.append(RESET);
    text
}

/// Renders a banner: the lines of a grid of the given size, striped from
/// top to bottom in the given colors, with the decorations laid over the
/// stripes, the first of them in front. `true_color` says whether the
/// terminal shows 24-bit colors; it decides for every stripe alike.
pub fn render<O: Overlay>(
    size: Size,
    stripes: &Vec<FallbackedColor>,
    overlays: &Vec<O>,
    true_color: bool,
) -> (lines: Vec<String>)
    requires
        stripes.len() > 0,
    ensures
        lines.deep_view() == banner(size, stripes@, overlays@, true_color),
        lines.len() == size.height,
{
    let mut lines: Vec<String> = Vec::new();
    let mut row: usize = 0;
    while row < size.height
        invariant
            row <= size.height,
            stripes.len() > 0,
            lines.len() == row,
            forall|y: int|
                0 <= y < row ==> (#[trigger] lines[y])@ == banner(
                    size,
                    stripes@,
                    overlays@,
                    true_color,
                )[y],
        decreases size.height - row,
    {
        let stripe = stripes[stripe_index(row, size.height, stripes.len())].bg(true_color);
        let text = render_line(overlays, stripe.as_str(), row, size);
        lines.push(text);
        row += 1;
    }
    lines
}

} // verus!
