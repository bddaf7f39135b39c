//! The background: one sprite drawn over and over on a square grid.

use vstd::prelude::*;

verus! {

/// Number of tiles along each side of the background grid.
pub const GRID_SIDE: u32 = 81;

/// Distance between neighbouring tiles, in pixels.
pub const GRID_STEP: u32 = 10;

/// Where the `k`-th draw of a frame puts the sprite: the grid is walked
/// column by column, each column from the top.
pub open spec fn grid_cell(k: int) -> (u32, u32) {
    (((k / 81) * 10) as u32, ((k % 81) * 10) as u32)
}

/// The position of every draw of one frame, in drawing order: 81 columns of
/// 81 tiles, 10 pixels apart, starting at the origin.
pub fn tile_grid() -> (cells: Vec<(u32, u32)>)
    ensures
        cells@.len() == 6561,
        forall|k: int| 0 <= k < 6561 ==> cells@[k] == grid_cell(k),
{
    let mut cells: Vec<(u32, u32)> = Vec::new();
    let mut column: u32 = 0;
    while column < GRID_SIDE
        invariant
            column <= 81,
            cells@.len() == column * 81,
            forall|k: int| 0 <= k < cells@.len() ==> cells@[k] == grid_cell(k),
        decreases 81 - column,
    {
        let mut row: u32 = 0;
        while row < GRID_SIDE
            invariant
                column < 81,
                row <= 81,
                cells@.len() == column * 81 + row,
                forall|k: int| 0 <= k < cells@.len() ==> cells@[k] == grid_cell(k),
            decreases 81 - row,
        {
            proof {
                lemma_grid_is_regular(column as int, row as int);
            }
            cells.push((column * GRID_STEP, row * GRID_STEP));
            row += 1;
        }
        column += 1;
    }
    cells
}

/// The grid is regular: for every column and row below 81, the tile at
/// `(10 * column, 10 * row)` is drawn, as draw number `81 * column + row`.
pub proof fn lemma_grid_is_regular(column: int, row: int)
    requires
        0 <= column < 81,
        0 <= row < 81,
    ensures
        0 <= 81 * column + row < 6561,
        grid_cell(81 * column + row) == ((10 * column) as u32, (10 * row) as u32),
{
    let k = 81 * column + row;
    assert(k / 81 == column && k % 81 == row) by (nonlinear_arith)
        requires
            k == 81 * column + row,
            0 <= row < 81,
    ;
}

/// No position is drawn twice in a frame: two different draws go to two
/// different places.
pub proof fn lemma_grid_cells_differ(j: int, k: int)
    requires
        0 <= j < 6561,
        0 <= k < 6561,
        j != k,
    ensures
        grid_cell(j) != grid_cell(k),
{
    assert(j == 81 * (j / 81) + j % 81 && 0 <= j / 81 < 81 && 0 <= j % 81 < 81) by (nonlinear_arith)
        requires
            0 <= j < 6561,
    ;
    assert(k == 81 * (k / 81) + k % 81 && 0 <= k / 81 < 81 && 0 <= k % 81 < 81) by (nonlinear_arith)
        requires
            0 <= k < 6561,
    ;
}

} // verus!
