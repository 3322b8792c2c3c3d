//! How the pitch is cut into a grid of regions, and where the support spots
//! of a team lie on a grid over its opponent's half.
use vstd::prelude::*;

verus! {

/// The grid cell (column, row) of the region with x-major linear index `k`
/// on a grid of `vertical` rows.
pub open spec fn region_cell(k: int, vertical: int) -> (int, int) {
    (k / vertical, k % vertical)
}

/// The cells of the pitch regions, in the order the regions are numbered:
/// the regions of an `horizontal` by `vertical` grid are numbered from the
/// last cell in x-major order down to the first.
pub fn region_cells(horizontal: usize, vertical: usize) -> (cells: Vec<(usize, usize)>)
    requires
        horizontal * vertical <= usize::MAX,
    ensures
        cells.len() == horizontal * vertical,
        forall|i: int|
            0 <= i < cells.len() ==> #[trigger] cells@[i] == ({
                let c = region_cell(horizontal * vertical - 1 - i, vertical as int);
                (c.0 as usize, c.1 as usize)
            }),
{
    let count: usize = horizontal * vertical;
    let mut cells: Vec<(usize, usize)> = Vec::new();
    let mut i: usize = 0;
    while i < count
        invariant
            count == horizontal * vertical,
            i <= count,
            cells.len() == i,
            forall|j: int|
                0 <= j < i ==> #[trigger] cells@[j] == ({
                    let c = region_cell(count - 1 - j, vertical as int);
                    (c.0 as usize, c.1 as usize)
                }),
        decreases count - i,
    {
        let k: usize = count - 1 - i;
        assert(vertical > 0) by (nonlinear_arith)
            requires
                count == horizontal * vertical,
                count > 0,
        ;
        cells.push((k / vertical, k % vertical));
        i = i + 1;
    }
    cells
}

/// The cell (column, row) of the support spot with row-major linear index
/// `k` on a grid of `columns` columns.
pub open spec fn spot_cell(k: int, columns: int) -> (int, int) {
    (k % columns, k / columns)
}

/// The cells of a team's support spots, in order: a grid of half as many
/// columns as `horizontal` (the spots cover one half of the pitch) and
/// `vertical` rows, row by row.
pub fn support_spot_cells(horizontal: usize, vertical: usize) -> (cells: Vec<(usize, usize)>)
    requires
        (horizontal / 2) * vertical <= usize::MAX,
    ensures
        cells.len() == (horizontal / 2) * vertical,
        forall|i: int|
            0 <= i < cells.len() ==> #[trigger] cells@[i] == ({
                let c = spot_cell(i, (horizontal / 2) as int);
                (c.0 as usize, c.1 as usize)
            }),
{
    let columns: usize = horizontal / 2;
    let count: usize = columns * vertical;
    let mut cells: Vec<(usize, usize)> = Vec::new();
    let mut i: usize = 0;
    while i < count
        invariant
            columns == horizontal / 2,
            count == columns * vertical,
            i <= count,
            cells.len() == i,
            forall|j: int|
                0 <= j < i ==> #[trigger] cells@[j] == ({
                    let c = spot_cell(j, columns as int);
                    (c.0 as usize, c.1 as usize)
                }),
        decreases count - i,
    {
        assert(columns > 0) by (nonlinear_arith)
            requires
                count == columns * vertical,
                count > 0,
        ;
        cells.push((i % columns, i / columns));
        i = i + 1;
    }
    cells
}

/// Every region cell lies on the grid.
pub proof fn lemma_region_cells_on_grid(horizontal: int, vertical: int, i: int)
    requires
        0 < vertical,
        0 <= horizontal,
        0 <= i < horizontal * vertical,
    ensures
        0 <= region_cell(horizontal * vertical - 1 - i, vertical).0 < horizontal,
        0 <= region_cell(horizontal * vertical - 1 - i, vertical).1 < vertical,
{
    let k = horizontal * vertical - 1 - i;
    assert(0 <= k < horizontal * vertical);
    assert(k / vertical < horizontal) by (nonlinear_arith)
        requires
            0 <= k < horizontal * vertical,
            0 < vertical,
    ;
    assert(0 <= k / vertical) by (nonlinear_arith)
        requires
            0 <= k,
            0 < vertical,
    ;
}

} // verus!
