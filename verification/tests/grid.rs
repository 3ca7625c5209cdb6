use color_field::color::Color;
use color_field::field::{Cell, Field};
use color_field::palette::TAG_COUNT;

fn snapshot(field: &Field) -> Vec<Cell> {
    let mut cells = Vec::new();
    for row in 0..field.height() {
        for column in 0..field.width() {
            cells.push(*field.point(row, column));
        }
    }
    cells
}

fn tagged(width: usize, height: usize, tags: &[i32]) -> Field {
    match Field::with_tags(width, height, tags) {
        Some(field) => field,
        None => panic!("one tag per position was given"),
    }
}

#[test]
fn fresh_cells_are_empty_with_a_tag_in_range() {
    let field = Field::new(5, 5);
    for row in 0..5 {
        for column in 0..5 {
            match field.point(row, column) {
                Cell::Empty(tag) => assert!(0 <= *tag && *tag < 5, "tag {} out of range", tag),
                Cell::Colored(_) => panic!("cell ({}, {}) is coloured", row, column),
            }
        }
    }
}

#[test]
fn new_keeps_the_dimensions_and_fills_every_position() {
    for &(width, height) in [(5usize, 5usize), (3, 7), (7, 3), (1, 1), (1, 9), (0, 4), (4, 0)].iter() {
        let field = Field::new(width, height);
        assert_eq!(field.width(), width);
        assert_eq!(field.height(), height);
        assert_eq!(snapshot(&field).len(), width * height);
    }
}

#[test]
fn new_draws_every_tag_and_no_other() {
    let field = Field::new(100, 100);
    let mut seen = [0usize; 5];
    for cell in snapshot(&field) {
        match cell {
            Cell::Empty(tag) => {
                assert!(0 <= tag && tag < TAG_COUNT);
                seen[tag as usize] += 1;
            }
            Cell::Colored(_) => panic!("a fresh cell is coloured"),
        }
    }
    for tag in 0..5 {
        assert!(seen[tag] > 0, "tag {} never drawn in 10000 draws", tag);
    }
}

#[test]
fn with_tags_places_the_tags_row_by_row() {
    let tags = [4, 0, 3, 1, 2, 5];
    let field = tagged(3, 2, &tags);
    assert_eq!(field.width(), 3);
    assert_eq!(field.height(), 2);
    assert_eq!(*field.point(0, 0), Cell::Empty(4));
    assert_eq!(*field.point(0, 1), Cell::Empty(0));
    assert_eq!(*field.point(0, 2), Cell::Empty(3));
    assert_eq!(*field.point(1, 0), Cell::Empty(1));
    assert_eq!(*field.point(1, 1), Cell::Empty(2));
    assert_eq!(*field.point(1, 2), Cell::Empty(5));
}

#[test]
fn with_tags_distinguishes_rows_from_columns() {
    let tags = [10, 11, 12, 13, 14, 15];
    let wide = tagged(3, 2, &tags);
    let tall = tagged(2, 3, &tags);
    assert_eq!(*wide.point(1, 0), Cell::Empty(13));
    assert_eq!(*tall.point(1, 0), Cell::Empty(12));
    assert_eq!(*tall.point(2, 1), Cell::Empty(15));
}

#[test]
fn with_tags_wants_one_tag_per_position() {
    assert!(Field::with_tags(2, 2, &[0, 1, 2]).is_none());
    assert!(Field::with_tags(2, 2, &[0, 1, 2, 3, 4]).is_none());
    assert!(Field::with_tags(1, 1, &[]).is_none());
    assert!(Field::with_tags(0, 3, &[0]).is_none());
    assert!(Field::with_tags(usize::MAX, 2, &[0, 1]).is_none());
    assert!(Field::with_tags(usize::MAX, usize::MAX, &[0]).is_none());
    assert!(Field::with_tags(2, 2, &[0, 1, 2, 3]).is_some());
    assert!(Field::with_tags(0, 3, &[]).is_some());
    assert!(Field::with_tags(3, 0, &[]).is_some());
}

#[test]
fn color_gives_each_tag_its_palette_entry() {
    let mut field = tagged(6, 1, &[0, 1, 2, 3, 4, 5]);
    for column in 0..6 {
        field.color(0, column);
    }
    assert_eq!(*field.point(0, 0), Cell::Colored(Color { r: 255, g: 255, b: 255, a: 255 }));
    assert_eq!(*field.point(0, 1), Cell::Colored(Color { r: 0, g: 0, b: 0, a: 255 }));
    assert_eq!(*field.point(0, 2), Cell::Colored(Color { r: 66, g: 135, b: 245, a: 255 }));
    assert_eq!(*field.point(0, 3), Cell::Colored(Color { r: 217, g: 53, b: 24, a: 255 }));
    assert_eq!(*field.point(0, 4), Cell::Colored(Color { r: 13, g: 219, b: 58, a: 255 }));
    assert_eq!(*field.point(0, 5), Cell::Colored(Color { r: 252, g: 252, b: 38, a: 255 }));
}

#[test]
fn color_falls_back_to_black_without_a_palette_entry() {
    let mut field = tagged(2, 2, &[6, -1, i32::MAX, i32::MIN]);
    let black = Cell::Colored(Color { r: 0, g: 0, b: 0, a: 255 });
    for row in 0..2 {
        for column in 0..2 {
            field.color(row, column);
            assert_eq!(*field.point(row, column), black);
        }
    }
}

#[test]
fn color_changes_the_clicked_cell_only() {
    let tags = [0, 1, 2, 3, 4, 0, 1, 2, 3, 4, 0, 1];
    let mut field = tagged(4, 3, &tags);
    field.color(2, 1);
    for row in 0..3 {
        for column in 0..4 {
            let expected = if (row, column) == (2, 1) {
                Cell::Colored(Color { r: 13, g: 219, b: 58, a: 255 })
            } else {
                Cell::Empty(tags[row * 4 + column])
            };
            assert_eq!(*field.point(row, column), expected);
        }
    }
    assert_eq!(field.width(), 4);
    assert_eq!(field.height(), 3);
}

#[test]
fn coloring_twice_is_coloring_once() {
    let mut once = tagged(3, 3, &[2, 2, 2, 3, 3, 3, 4, 4, 4]);
    let mut twice = tagged(3, 3, &[2, 2, 2, 3, 3, 3, 4, 4, 4]);
    once.color(1, 2);
    twice.color(1, 2);
    twice.color(1, 2);
    assert_eq!(snapshot(&once), snapshot(&twice));
    assert_eq!(*twice.point(1, 2), Cell::Colored(Color { r: 217, g: 53, b: 24, a: 255 }));
}

#[test]
fn coloring_a_random_grid_twice_is_coloring_once() {
    let mut field = Field::new(4, 4);
    field.color(3, 0);
    let after_one = snapshot(&field);
    field.color(3, 0);
    assert_eq!(snapshot(&field), after_one);
}

#[test]
fn coloring_outside_the_grid_changes_nothing() {
    let tags = [0, 1, 2, 3, 4, 5];
    let mut field = tagged(3, 2, &tags);
    field.color(0, 1);
    let before = snapshot(&field);
    field.color(2, 0);
    field.color(0, 3);
    field.color(2, 3);
    field.color(1, usize::MAX);
    field.color(usize::MAX, 1);
    field.color(usize::MAX, usize::MAX);
    assert_eq!(snapshot(&field), before);
    assert_eq!(field.width(), 3);
    assert_eq!(field.height(), 2);
}

#[test]
fn a_column_past_the_row_end_does_not_reach_the_next_row() {
    let mut field = tagged(2, 2, &[0, 0, 0, 0]);
    field.color(0, 2);
    assert_eq!(*field.point(1, 0), Cell::Empty(0));
}

#[test]
fn coloring_an_empty_grid_does_nothing() {
    let mut no_columns = Field::new(0, 4);
    no_columns.color(0, 0);
    assert_eq!(no_columns.width(), 0);
    assert_eq!(no_columns.height(), 4);
    let mut no_rows = Field::new(4, 0);
    no_rows.color(0, 0);
    assert_eq!(snapshot(&no_rows).len(), 0);
}

#[test]
fn five_by_five_click_on_two_three() {
    let mut field = Field::new(5, 5);
    let before = snapshot(&field);
    let tag = match before[2 * 5 + 3] {
        Cell::Empty(tag) => tag,
        Cell::Colored(_) => panic!("a fresh cell is coloured"),
    };
    field.color(2, 3);
    let expected = field.color_palette().get(&tag).copied();
    assert!(expected.is_some());
    assert_eq!(Some(*field.point(2, 3)), expected.map(Cell::Colored));
    let mut untouched = 0;
    for row in 0..5 {
        for column in 0..5 {
            if (row, column) != (2, 3) {
                let cell = *field.point(row, column);
                assert!(matches!(cell, Cell::Empty(_)));
                assert_eq!(cell, before[row * 5 + column]);
                untouched += 1;
            }
        }
    }
    assert_eq!(untouched, 24);
}

#[test]
fn one_by_one_click_out_of_range() {
    let mut field = Field::new(1, 1);
    let before = *field.point(0, 0);
    field.color(5, 5);
    assert!(matches!(field.point(0, 0), Cell::Empty(_)));
    assert_eq!(*field.point(0, 0), before);
}
