use jiman::color::Color;
use jiman::overlay::triangle::{Region, Slope, Triangle, TriangleChar};
use jiman::overlay::{Overlay, Size};

const FILL: char = '\u{2588}';
const UPPER: char = '\u{2599}';
const LOWER: char = '\u{259B}';
const HALF: char = '\u{258C}';

fn slope(columns: usize) -> Slope {
    Slope::new(columns).unwrap()
}

fn wedge_row(triangle: &Triangle, row: usize, size: Size) -> Vec<Option<char>> {
    (0..size.width).map(|col| triangle.at_pos(col, row, size)).collect()
}

#[test]
fn slope_is_never_zero() {
    assert!(Slope::new(0).is_none());
    assert_eq!(Slope::new(1).unwrap().get(), 1);
    assert_eq!(Slope::new(usize::MAX).unwrap().get(), usize::MAX);
}

#[test]
fn regions_of_an_odd_height() {
    let regions: Vec<Region> = (0..5).map(|row| Region::at_pos(5, row)).collect();
    assert_eq!(
        regions,
        vec![Region::Top, Region::Top, Region::Center, Region::Bottom, Region::Bottom]
    );
}

#[test]
fn regions_of_an_even_height_have_no_center() {
    let regions: Vec<Region> = (0..4).map(|row| Region::at_pos(4, row)).collect();
    assert_eq!(regions, vec![Region::Top, Region::Top, Region::Bottom, Region::Bottom]);
}

#[test]
fn regions_mirror_around_the_middle() {
    for height in 0..12usize {
        for row in 0..height {
            let mirrored = match Region::at_pos(height, row) {
                Region::Top => Region::Bottom,
                Region::Center => Region::Center,
                Region::Bottom => Region::Top,
            };
            assert_eq!(Region::at_pos(height, height - 1 - row), mirrored);
        }
    }
}

#[test]
fn edge_glyph_of_each_region() {
    assert_eq!(TriangleChar::from(Region::Top), TriangleChar::UpperDiagonal);
    assert_eq!(TriangleChar::from(Region::Center), TriangleChar::CenterHalf);
    assert_eq!(TriangleChar::from(Region::Bottom), TriangleChar::LowerDiagonal);
}

#[test]
fn characters_of_the_glyphs() {
    assert_eq!(char::from(TriangleChar::Fill), '█');
    assert_eq!(char::from(TriangleChar::UpperDiagonal), '▙');
    assert_eq!(char::from(TriangleChar::LowerDiagonal), '▛');
    assert_eq!(char::from(TriangleChar::CenterHalf), '▌');
}

#[test]
fn glyph_left_of_on_and_right_of_the_boundary() {
    // Row 1 of 5 with slope 2 and insert 3: the boundary is column 1 * 2 + 3.
    assert_eq!(TriangleChar::at_pos(5, slope(2), (4, 1), 3), Some(TriangleChar::Fill));
    assert_eq!(TriangleChar::at_pos(5, slope(2), (5, 1), 3), Some(TriangleChar::UpperDiagonal));
    assert_eq!(TriangleChar::at_pos(5, slope(2), (6, 1), 3), None);
}

#[test]
fn bottom_rows_count_from_the_last_row() {
    // Row 3 of 5 counts as row 1, row 4 as row 0.
    assert_eq!(TriangleChar::at_pos(5, slope(2), (5, 3), 3), Some(TriangleChar::LowerDiagonal));
    assert_eq!(TriangleChar::at_pos(5, slope(2), (3, 4), 3), Some(TriangleChar::LowerDiagonal));
    assert_eq!(TriangleChar::at_pos(5, slope(2), (2, 4), 3), Some(TriangleChar::Fill));
    assert_eq!(TriangleChar::at_pos(5, slope(2), (4, 4), 3), None);
}

#[test]
fn center_row_of_an_odd_height() {
    assert_eq!(TriangleChar::at_pos(5, slope(2), (7, 2), 3), Some(TriangleChar::CenterHalf));
    assert_eq!(TriangleChar::at_pos(5, slope(2), (6, 2), 3), Some(TriangleChar::Fill));
    assert_eq!(TriangleChar::at_pos(5, slope(2), (8, 2), 3), None);
}

#[test]
fn rows_that_the_wedge_lacks_are_empty() {
    assert_eq!(TriangleChar::at_pos(5, slope(1), (0, 5), 0), None);
    assert_eq!(TriangleChar::at_pos(0, slope(1), (0, 0), 0), None);
    assert_eq!(TriangleChar::at_pos(5, slope(1), (0, usize::MAX), 9), None);
}

#[test]
fn boundary_beyond_the_largest_column_fills_the_row() {
    assert_eq!(
        TriangleChar::at_pos(5, slope(usize::MAX), (usize::MAX, 2), 0),
        Some(TriangleChar::Fill)
    );
    assert_eq!(
        TriangleChar::at_pos(5, slope(1), (usize::MAX, 1), usize::MAX),
        Some(TriangleChar::Fill)
    );
    assert_eq!(
        TriangleChar::at_pos(5, slope(1), (usize::MAX, 0), usize::MAX),
        Some(TriangleChar::UpperDiagonal)
    );
}

#[test]
fn triangle_on_five_by_five() {
    let triangle = Triangle::new(0, 0, slope(1), Color::black());
    let size = Size::new(5, 5);
    assert_eq!(wedge_row(&triangle, 0, size), vec![Some(UPPER), None, None, None, None]);
    assert_eq!(wedge_row(&triangle, 1, size), vec![Some(FILL), Some(UPPER), None, None, None]);
    assert_eq!(wedge_row(&triangle, 2, size), vec![Some(FILL), Some(FILL), Some(HALF), None, None]);
    assert_eq!(wedge_row(&triangle, 3, size), vec![Some(FILL), Some(LOWER), None, None, None]);
    assert_eq!(wedge_row(&triangle, 4, size), vec![Some(LOWER), None, None, None, None]);
}

#[test]
fn triangle_on_an_even_height_has_no_tip() {
    let triangle = Triangle::new(0, 0, slope(2), Color::black());
    let size = Size::new(4, 6);
    assert_eq!(wedge_row(&triangle, 0, size), vec![Some(UPPER), None, None, None, None, None]);
    assert_eq!(
        wedge_row(&triangle, 1, size),
        vec![Some(FILL), Some(FILL), Some(UPPER), None, None, None]
    );
    assert_eq!(
        wedge_row(&triangle, 2, size),
        vec![Some(FILL), Some(FILL), Some(LOWER), None, None, None]
    );
    assert_eq!(wedge_row(&triangle, 3, size), vec![Some(LOWER), None, None, None, None, None]);
}

#[test]
fn padding_leaves_rows_free_at_both_ends() {
    let triangle = Triangle::new(2, 0, slope(1), Color::black());
    let size = Size::new(7, 4);
    assert_eq!(wedge_row(&triangle, 0, size), vec![None, None, None, None]);
    assert_eq!(wedge_row(&triangle, 1, size), vec![None, None, None, None]);
    assert_eq!(wedge_row(&triangle, 2, size), vec![Some(UPPER), None, None, None]);
    assert_eq!(wedge_row(&triangle, 3, size), vec![Some(FILL), Some(HALF), None, None]);
    assert_eq!(wedge_row(&triangle, 4, size), vec![Some(LOWER), None, None, None]);
    assert_eq!(wedge_row(&triangle, 5, size), vec![None, None, None, None]);
    assert_eq!(wedge_row(&triangle, 6, size), vec![None, None, None, None]);
}

#[test]
fn padding_that_leaves_no_row() {
    let triangle = Triangle::new(3, 0, slope(1), Color::black());
    let size = Size::new(6, 3);
    for row in 0..6 {
        assert_eq!(wedge_row(&triangle, row, size), vec![None, None, None]);
    }
    let triangle = Triangle::new(usize::MAX, 0, slope(1), Color::black());
    for row in 0..6 {
        assert_eq!(wedge_row(&triangle, row, size), vec![None, None, None]);
    }
}

#[test]
fn insert_moves_the_wedge_to_the_right() {
    let triangle = Triangle::new(0, 2, slope(1), Color::black());
    let size = Size::new(3, 5);
    assert_eq!(wedge_row(&triangle, 0, size), vec![Some(FILL), Some(FILL), Some(UPPER), None, None]);
    assert_eq!(
        wedge_row(&triangle, 1, size),
        vec![Some(FILL), Some(FILL), Some(FILL), Some(HALF), None]
    );
    assert_eq!(wedge_row(&triangle, 2, size), vec![Some(FILL), Some(FILL), Some(LOWER), None, None]);
}

#[test]
fn triangle_shows_nothing_outside_the_grid() {
    let triangle = Triangle::new(0, 4, slope(3), Color::black());
    let size = Size::new(5, 3);
    assert_eq!(triangle.at_pos(2, 2, size), Some(FILL));
    assert_eq!(triangle.at_pos(3, 2, size), None);
    assert_eq!(triangle.at_pos(0, 5, size), None);
    assert_eq!(triangle.at_pos(0, 0, Size::new(0, 0)), None);
}

#[test]
fn triangle_foreground_is_its_color() {
    let triangle = Triangle::new(0, 0, slope(1), Color::new(253, 216, 23));
    assert_eq!(triangle.foreground(), Color::new(253, 216, 23));
}

#[test]
fn wedge_widens_toward_the_middle() {
    for height in 1..10usize {
        for columns in 1..4usize {
            let triangle = Triangle::new(0, 1, slope(columns), Color::black());
            let size = Size::new(height, 40);
            let filled = |row: usize| {
                (0..size.width).filter(|&col| triangle.at_pos(col, row, size) == Some(FILL)).count()
            };
            for row in 1..height {
                if 2 * row < height {
                    assert!(filled(row - 1) <= filled(row));
                }
                if 2 * (row - 1) + 1 >= height {
                    assert!(filled(row - 1) >= filled(row));
                }
            }
        }
    }
}

#[test]
fn wedge_is_the_same_above_and_below() {
    let triangle = Triangle::new(1, 2, slope(2), Color::black());
    let size = Size::new(9, 12);
    for row in 0..size.height {
        for col in 0..size.width {
            let mirrored = match triangle.at_pos(col, row, size) {
                Some(UPPER) => Some(LOWER),
                Some(LOWER) => Some(UPPER),
                other => other,
            };
            assert_eq!(triangle.at_pos(col, size.height - 1 - row, size), mirrored);
        }
    }
}
