//! Row-major addressing: how a (row, column) pair names a position in a flat sequence.

use vstd::prelude::*;

verus! {

/// Whether (`row`, `column`) lies inside a grid of `height` rows and `width` columns.
pub open spec fn in_bounds(width: int, height: int, row: int, column: int) -> bool {
    0 <= row < height && 0 <= column < width
}

/// Position of (`row`, `column`) in the flat row-major sequence of a grid `width` columns wide.
pub open spec fn flat_index(width: int, row: int, column: int) -> int {
    row * width + column
}

/// Every coordinate pair inside the grid names a position inside the flat sequence.
pub proof fn lemma_flat_index_in_range(width: int, height: int, row: int, column: int)
    requires
        in_bounds(width, height, row, column),
    ensures
        0 <= row * width,
        0 <= flat_index(width, row, column) < width * height,
{
    assert(0 <= row * width) by (nonlinear_arith)
        requires
            0 <= row,
            0 <= width,
    ;
    assert(row * width + width <= width * height) by (nonlinear_arith)
        requires
            0 <= row < height,
            0 <= width,
    ;
}

/// Two different coordinate pairs inside the grid never name the same position.
pub proof fn lemma_flat_index_injective(
    width: int,
    height: int,
    row_a: int,
    column_a: int,
    row_b: int,
    column_b: int,
)
    requires
        in_bounds(width, height, row_a, column_a),
        in_bounds(width, height, row_b, column_b),
        flat_index(width, row_a, column_a) == flat_index(width, row_b, column_b),
    ensures
        row_a == row_b,
        column_a == column_b,
{
    if row_a < row_b {
        assert(row_a * width + width <= row_b * width) by (nonlinear_arith)
            requires
                row_a < row_b,
                0 <= width,
        ;
    } else if row_b < row_a {
        assert(row_b * width + width <= row_a * width) by (nonlinear_arith)
            requires
                row_b < row_a,
                0 <= width,
        ;
    }
}

/// Every position of the flat sequence is named by a coordinate pair inside the grid,
/// namely by (`index / width`, `index % width`).
pub proof fn lemma_flat_index_onto(width: int, height: int, index: int)
    requires
        0 <= width,
        0 <= index < width * height,
    ensures
        in_bounds(width, height, index / width, index % width),
        flat_index(width, index / width, index % width) == index,
{
    assert(width > 0) by (nonlinear_arith)
        requires
            0 <= width,
            0 <= index < width * height,
    ;
    let row = index / width;
    let column = index % width;
    assert(index == width * row + column) by {
        vstd::arithmetic::div_mod::lemma_fundamental_div_mod(index, width);
    }
    assert(0 <= column < width) by {
        vstd::arithmetic::div_mod::lemma_mod_bound(index, width);
    }
    assert(0 <= row < height) by (nonlinear_arith)
        requires
            index == width * row + column,
            0 <= column < width,
            0 <= index < width * height,
    ;
    assert(row * width == width * row) by (nonlinear_arith);
}

} // verus!
