//! The layout of the instanced copies: a square grid, row by row.
use vstd::prelude::*;
use vstd::arithmetic::div_mod::lemma_fundamental_div_mod_converse;

verus! {

/// One place of the instance grid. Its position in the scene is
/// `spacing * (column - per_row / 2)` along x and `spacing * (row - per_row / 2)`
/// along z, at height zero.
#[derive(Clone, Copy, Debug, PartialEq, Eq, Structural)]
pub struct GridCell {
    pub column: u32,
    pub row: u32,
    /// Whether the position is the origin, where the instance keeps the
    /// identity rotation instead of a tilt about its position vector.
    pub at_origin: bool,
}

/// The cell of the instance at index `k` of a grid with `per_row` instances to
/// a row: rows follow each other, and columns within a row.
pub open spec fn grid_cell(per_row: nat, k: nat) -> GridCell {
    let column = k % per_row;
    let row = k / per_row;
    GridCell {
        column: column as u32,
        row: row as u32,
        at_origin: 2 * column == per_row && 2 * row == per_row,
    }
}

/// The cells of a `per_row` by `per_row` grid, in the order the instances are
/// stored and uploaded.
pub fn instance_grid(per_row: u32) -> (r: Vec<GridCell>)
    requires
        per_row * per_row <= usize::MAX,
    ensures
        r@.len() == per_row * per_row,
        forall|k: int| 0 <= k < r@.len() ==> #[trigger] r@[k] == grid_cell(per_row as nat, k as nat),
{
    let n = per_row as usize;
    let mut cells: Vec<GridCell> = Vec::new();
    let mut row: u32 = 0;
    while row < per_row
        invariant
            n == per_row,
            n * n <= usize::MAX,
            row <= per_row,
            cells@.len() == row * n,
            forall|k: int| 0 <= k < cells@.len() ==> #[trigger] cells@[k] == grid_cell(n as nat, k as nat),
        decreases per_row - row,
    {
        let mut column: u32 = 0;
        while column < per_row
            invariant
                n == per_row,
                n * n <= usize::MAX,
                row < per_row,
                column <= per_row,
                cells@.len() == row * n + column,
                forall|k: int| 0 <= k < cells@.len() ==> #[trigger] cells@[k] == grid_cell(n as nat, k as nat),
            decreases per_row - column,
        {
            proof {
                lemma_fundamental_div_mod_converse(
                    (row * n + column) as int,
                    n as int,
                    row as int,
                    column as int,
                );
            }
            let at_origin = 2 * (column as u64) == per_row as u64 && 2 * (row as u64) == per_row as u64;
            cells.push(GridCell { column, row, at_origin });
            column += 1;
        }
        assert((row + 1) * n == row * n + n) by (nonlinear_arith);
        row += 1;
    }
    cells
}

} // verus!
