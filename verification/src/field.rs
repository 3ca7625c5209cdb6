//! The grid of cells and the one operation that changes it.

use crate::color::Color;
use crate::layout::{
    flat_index, in_bounds, lemma_flat_index_in_range, lemma_flat_index_injective,
    lemma_flat_index_onto,
};
use crate::palette::{build_default_palette, default_palette, lookup, resolve, TAG_COUNT};
use crate::random::draw_in_range;
use std::collections::HashMap;
use std::rc::Rc;
use vstd::prelude::*;

verus! {

/// The state of one grid position.
///
/// A cell starts out `Empty`, carrying the tag of the colour it will take, and becomes `Colored`
/// the first time it is coloured. Nothing leads back from `Colored`.
#[derive(Clone, Copy, Debug, PartialEq, Eq, Structural)]
pub enum Cell {
    Colored(Color),
    Empty(i32),
}

impl Cell {
    /// Whether the cell is as construction leaves it: empty, with a tag in `0..TAG_COUNT`.
    pub open spec fn is_fresh(self) -> bool {
        self matches Cell::Empty(tag) && 0 <= tag < TAG_COUNT
    }

    /// The cell after it has been coloured from `palette`: an empty cell takes the colour its
    /// tag resolves to, a coloured cell stays as it is.
    pub open spec fn painted(self, palette: Map<i32, Color>) -> Cell {
        match self {
            Cell::Empty(tag) => Cell::Colored(resolve(palette, tag)),
            Cell::Colored(_) => self,
        }
    }
}

/// The mathematical content of a [`Field`]: its dimensions, its cells in row-major order and
/// its palette.
#[verifier::ext_equal]
pub struct FieldView {
    pub width: nat,
    pub height: nat,
    pub cells: Seq<Cell>,
    pub palette: Map<i32, Color>,
}

impl FieldView {
    /// There is exactly one cell for each position of the grid.
    pub open spec fn wf(self) -> bool {
        self.cells.len() == self.width * self.height
    }

    /// Whether (`row`, `column`) is a position of the grid.
    pub open spec fn contains(self, row: int, column: int) -> bool {
        in_bounds(self.width as int, self.height as int, row, column)
    }

    /// Where the cell at (`row`, `column`) stands among the cells.
    pub open spec fn index_of(self, row: int, column: int) -> int {
        flat_index(self.width as int, row, column)
    }

    /// The row of the cell that stands at `index` among the cells.
    pub open spec fn row_of(self, index: int) -> int {
        index / (self.width as int)
    }

    /// The column of the cell that stands at `index` among the cells.
    pub open spec fn column_of(self, index: int) -> int {
        index % (self.width as int)
    }

    /// The cell at (`row`, `column`).
    pub open spec fn point(self, row: int, column: int) -> Cell
        recommends
            self.contains(row, column),
    {
        self.cells[self.index_of(row, column)]
    }

    /// The grid after a click on (`row`, `column`): the cell at a position of the grid is
    /// painted, a click anywhere else changes nothing.
    pub open spec fn color(self, row: int, column: int) -> FieldView {
        if self.contains(row, column) {
            let index = self.index_of(row, column);
            FieldView { cells: self.cells.update(index, self.cells[index].painted(self.palette)), ..self }
        } else {
            self
        }
    }
}

/// A grid of `width * height` cells, stored row by row, together with the palette that its
/// cells are coloured from.
pub struct Field {
    width: usize,
    height: usize,
    content: Vec<Cell>,
    color_palette: Rc<HashMap<i32, Color>>,
}

impl View for Field {
    type V = FieldView;

    closed spec fn view(&self) -> FieldView {
        FieldView {
            width: self.width as nat,
            height: self.height as nat,
            cells: self.content@,
            palette: self.color_palette@,
        }
    }
}

impl Field {
    #[verifier::type_invariant]
    spec fn content_fills_grid(&self) -> bool {
        self.content@.len() == self.width * self.height
    }

    /// Makes a grid of the given dimensions with the built-in palette. Every cell is empty and
    /// carries a tag drawn at random from `0..TAG_COUNT`.
    pub fn new(width: usize, height: usize) -> (field: Field)
        requires
            width * height <= usize::MAX,
        ensures
            field@.wf(),
            field@.width == width,
            field@.height == height,
            field@.cells.len() == width * height,
            field@.palette == default_palette(),
            forall|index: int|
                0 <= index < field@.cells.len() ==> (#[trigger] field@.cells[index]).is_fresh(),
            forall|row: int, column: int|
                field@.contains(row, column) ==> (#[trigger] field@.point(row, column)).is_fresh(),
    {
        let len = width * height;
        let mut content: Vec<Cell> = Vec::with_capacity(len);
        let mut rng = rand::thread_rng();
        for filled in 0..len
            invariant
                content@.len() == filled,
                forall|index: int| 0 <= index < filled ==> (#[trigger] content@[index]).is_fresh(),
        {
            let tag = draw_in_range(&mut rng, 0, TAG_COUNT);
            content.push(Cell::Empty(tag));
        }
        let field = Field { width, height, content, color_palette: Rc::new(build_default_palette()) };
        proof {
            assert forall|row: int, column: int| field@.contains(row, column) implies (
                #[trigger] field@.point(row, column)
            ).is_fresh() by {
                lemma_flat_index_in_range(width as int, height as int, row, column);
            }
        }
        field
    }

    /// Makes a grid of the given dimensions with the built-in palette, whose cells are empty and
    /// carry the given tags, row by row. Returns `None` unless there is exactly one tag for each
    /// position of the grid.
    pub fn with_tags(width: usize, height: usize, tags: &[i32]) -> (made: Option<Field>)
        ensures
            made.is_some() <==> tags@.len() == width * height,
            made matches Some(field) ==> field@ == (FieldView {
                width: width as nat,
                height: height as nat,
                cells: tags@.map_values(|tag: i32| Cell::Empty(tag)),
                palette: default_palette(),
            }),
    {
        let len = match width.checked_mul(height) {
            Some(len) => len,
            None => {
                assert(tags@.len() == tags.len());
                return None;
            },
        };
        if len != tags.len() {
            return None;
        }
        let mut content: Vec<Cell> = Vec::with_capacity(len);
        for filled in 0..len
            invariant
                len == tags@.len(),
                content@.len() == filled,
                forall|index: int|
                    0 <= index < filled ==> #[trigger] content@[index] == Cell::Empty(tags@[index]),
        {
            content.push(Cell::Empty(tags[filled]));
        }
        let field = Field { width, height, content, color_palette: Rc::new(build_default_palette()) };
        assert(field@.cells =~= tags@.map_values(|tag: i32| Cell::Empty(tag)));
        Some(field)
    }

    /// The number of columns.
    pub fn width(&self) -> (width: usize)
        ensures
            width == self@.width,
            self@.wf(),
    {
        proof {
            use_type_invariant(self);
        }
        self.width
    }

    /// The number of rows.
    pub fn height(&self) -> (height: usize)
        ensures
            height == self@.height,
            self@.wf(),
    {
        proof {
            use_type_invariant(self);
        }
        self.height
    }

    /// The palette, as a handle that can be shared with whoever needs to read it.
    pub fn color_palette(&self) -> (palette: &Rc<HashMap<i32, Color>>)
        ensures
            palette@ == self@.palette,
    {
        &self.color_palette
    }

    /// The cell at (`row`, `column`), which must be a position of the grid.
    pub fn point(&self, row: usize, column: usize) -> (cell: &Cell)
        requires
            self@.contains(row as int, column as int),
        ensures
            *cell == self@.point(row as int, column as int),
    {
        proof {
            use_type_invariant(self);
            assert(self.content@.len() == self.content.len());
            lemma_flat_index_in_range(
                self.width as int,
                self.height as int,
                row as int,
                column as int,
            );
        }
        let idx = (row * self.width) + column;
        &self.content[idx]
    }

    /// Colours the cell at (`row`, `column`).
    ///
    /// An empty cell takes the colour that the palette holds for its tag, or black where the
    /// palette has no entry for it. A cell that is coloured already stays as it is, and so does
    /// the whole grid when (`row`, `column`) is not one of its positions.
    pub fn color(&mut self, row: usize, column: usize)
        ensures
            final(self)@ == old(self)@.color(row as int, column as int),
            final(self)@.wf(),
            final(self)@.width == old(self)@.width,
            final(self)@.height == old(self)@.height,
            final(self)@.palette == old(self)@.palette,
            !old(self)@.contains(row as int, column as int) ==> final(self)@ == old(self)@,
            old(self)@.contains(row as int, column as int) ==> final(self)@.point(
                row as int,
                column as int,
            ) == old(self)@.point(row as int, column as int).painted(old(self)@.palette),
            forall|other_row: int, other_column: int|
                old(self)@.contains(other_row, other_column) && (other_row, other_column) != (
                    row as int,
                    column as int,
                ) ==> #[trigger] final(self)@.point(other_row, other_column) == old(self)@.point(
                    other_row,
                    other_column,
                ),
    {
        proof {
            use_type_invariant(&*self);
        }
        if row >= self.height || column >= self.width {
            return ;
        }
        proof {
            assert(self.content@.len() == self.content.len());
            lemma_flat_index_in_range(
                self.width as int,
                self.height as int,
                row as int,
                column as int,
            );
        }
        let idx = (row * self.width) + column;
        if let Cell::Empty(tag) = self.content[idx] {
            let color = lookup(&self.color_palette, tag);
            self.content[idx] = Cell::Colored(color);
        }
        proof {
            let before = old(self)@;
            assert(self@.cells =~= before.color(row as int, column as int).cells);
            assert forall|other_row: int, other_column: int|
                before.contains(other_row, other_column) && (other_row, other_column) != (
                    row as int,
                    column as int,
                ) implies #[trigger] self@.point(other_row, other_column) == before.point(
                other_row,
                other_column,
            ) by {
                lemma_color_paints_one_cell(
                    before,
                    row as int,
                    column as int,
                    other_row,
                    other_column,
                );
            }
        }
    }
}

/// Colouring a position twice in a row leaves the grid as colouring it once does.
pub proof fn lemma_color_idempotent(grid: FieldView, row: int, column: int)
    requires
        grid.wf(),
    ensures
        grid.color(row, column).color(row, column) == grid.color(row, column),
{
    if grid.contains(row, column) {
        lemma_flat_index_in_range(grid.width as int, grid.height as int, row, column);
        assert(grid.color(row, column).color(row, column).cells =~= grid.color(row, column).cells);
    }
}

/// Colouring a position of the grid paints the cell there and leaves the cell at every other
/// position as it was; dimensions, palette and the number of cells stay as they were.
pub proof fn lemma_color_paints_one_cell(
    grid: FieldView,
    row: int,
    column: int,
    other_row: int,
    other_column: int,
)
    requires
        grid.wf(),
        grid.contains(row, column),
        grid.contains(other_row, other_column),
    ensures
        grid.color(row, column).wf(),
        grid.color(row, column).width == grid.width,
        grid.color(row, column).height == grid.height,
        grid.color(row, column).palette == grid.palette,
        grid.color(row, column).point(row, column) == grid.point(row, column).painted(grid.palette),
        (other_row, other_column) != (row, column) ==> grid.color(row, column).point(
            other_row,
            other_column,
        ) == grid.point(other_row, other_column),
{
    let width = grid.width as int;
    let height = grid.height as int;
    lemma_flat_index_in_range(width, height, row, column);
    lemma_flat_index_in_range(width, height, other_row, other_column);
    if grid.index_of(row, column) == grid.index_of(other_row, other_column) {
        lemma_flat_index_injective(width, height, row, column, other_row, other_column);
    }
}

/// A fresh cell always finds its colour in the built-in palette: colouring it never has to fall
/// back to black for want of an entry.
pub proof fn lemma_fresh_cell_finds_its_color(cell: Cell)
    requires
        cell.is_fresh(),
    ensures
        cell matches Cell::Empty(tag) && default_palette().contains_key(tag) && cell.painted(
            default_palette(),
        ) == Cell::Colored(default_palette()[tag]),
{
}

/// The positions of a grid and its cells correspond one to one: every position names a cell,
/// different positions name different cells, and every cell is named by a position.
pub proof fn lemma_positions_address_cells(grid: FieldView)
    requires
        grid.wf(),
    ensures
        forall|row: int, column: int|
            grid.contains(row, column) ==> 0 <= #[trigger] grid.index_of(row, column)
                < grid.cells.len(),
        forall|row_a: int, column_a: int, row_b: int, column_b: int|
            grid.contains(row_a, column_a) && grid.contains(row_b, column_b)
                && #[trigger] grid.index_of(row_a, column_a) == #[trigger] grid.index_of(
                row_b,
                column_b,
            ) ==> (row_a, column_a) == (row_b, column_b),
        forall|index: int|
            0 <= index < grid.cells.len() ==> grid.contains(
                #[trigger] grid.row_of(index),
                grid.column_of(index),
            ) && grid.index_of(grid.row_of(index), grid.column_of(index)) == index,
{
    let width = grid.width as int;
    let height = grid.height as int;
    assert forall|row: int, column: int| grid.contains(row, column) implies 0
        <= #[trigger] grid.index_of(row, column) < grid.cells.len() by {
        lemma_flat_index_in_range(width, height, row, column);
    }
    assert forall|row_a: int, column_a: int, row_b: int, column_b: int|
        grid.contains(row_a, column_a) && grid.contains(row_b, column_b)
            && #[trigger] grid.index_of(row_a, column_a) == #[trigger] grid.index_of(
            row_b,
            column_b,
        ) implies (row_a, column_a) == (row_b, column_b) by {
        lemma_flat_index_injective(width, height, row_a, column_a, row_b, column_b);
    }
    assert forall|index: int| 0 <= index < grid.cells.len() implies grid.contains(
        #[trigger] grid.row_of(index),
        grid.column_of(index),
    ) && grid.index_of(grid.row_of(index), grid.column_of(index)) == index by {
        lemma_flat_index_onto(width, height, index);
    }
}

} // verus!
