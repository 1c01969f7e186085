//! Which cells of a pixel grid a shape covers. A cell is a pair of column and
//! row; the shapes are drawn from their top-left cell.

use vstd::prelude::*;

verus! {

/// The cells of a row of `length` cells starting at column `x0`, row `y0`,
/// left to right.
pub fn horizontal_line_of_pixel_cells(x0: usize, y0: usize, length: usize) -> (r: Vec<(usize, usize)>)
    requires
        x0 + length <= usize::MAX,
    ensures
        r@.len() == length,
        forall|k: int| 0 <= k < length ==> #[trigger] r@[k] == ((x0 + k) as usize, y0),
{
    let mut cells: Vec<(usize, usize)> = Vec::new();
    let end = x0 + length;
    let mut x: usize = x0;
    while x < end
        invariant
            x0 <= x <= end,
            end == x0 + length,
            cells@.len() == x - x0,
            forall|k: int| 0 <= k < cells@.len() ==> #[trigger] cells@[k] == ((x0 + k) as usize, y0),
        decreases end - x,
    {
        cells.push((x, y0));
        x = x + 1;
    }
    cells
}

/// The cells of a column of `length` cells starting at column `x0`, row `y0`,
/// top to bottom.
pub fn vertical_line_of_pixel_cells(x0: usize, y0: usize, length: usize) -> (r: Vec<(usize, usize)>)
    requires
        y0 + length <= usize::MAX,
    ensures
        r@.len() == length,
        forall|k: int| 0 <= k < length ==> #[trigger] r@[k] == (x0, (y0 + k) as usize),
{
    let mut cells: Vec<(usize, usize)> = Vec::new();
    let end = y0 + length;
    let mut y: usize = y0;
    while y < end
        invariant
            y0 <= y <= end,
            end == y0 + length,
            cells@.len() == y - y0,
            forall|k: int| 0 <= k < cells@.len() ==> #[trigger] cells@[k] == (x0, (y0 + k) as usize),
        decreases end - y,
    {
        cells.push((x0, y));
        y = y + 1;
    }
    cells
}

/// The cells of a `size` by `size` square whose top-left cell is column `x0`,
/// row `y0`: column by column, each from top to bottom.
pub fn square_of_pixel_cells(x0: usize, y0: usize, size: usize) -> (r: Vec<(usize, usize)>)
    requires
        x0 + size <= usize::MAX,
        y0 + size <= usize::MAX,
    ensures
        r@.len() == size * size,
        forall|a: int, b: int|
            0 <= a < size && 0 <= b < size ==> #[trigger] r@[a * size + b] == (
                (x0 + a) as usize,
                (y0 + b) as usize,
            ),
{
    let mut cells: Vec<(usize, usize)> = Vec::new();
    let x_end = x0 + size;
    let y_end = y0 + size;
    let mut x: usize = x0;
    while x < x_end
        invariant
            x0 <= x <= x_end,
            x_end == x0 + size,
            y_end == y0 + size,
            cells@.len() == (x - x0) * size,
            forall|a: int, b: int|
                0 <= a < x - x0 && 0 <= b < size ==> #[trigger] cells@[a * size + b] == (
                    (x0 + a) as usize,
                    (y0 + b) as usize,
                ),
        decreases x_end - x,
    {
        let ghost done = cells@;
        let mut y: usize = y0;
        while y < y_end
            invariant
                x0 <= x < x_end,
                y0 <= y <= y_end,
                x_end == x0 + size,
                y_end == y0 + size,
                done.len() == (x - x0) * size,
                cells@.len() == done.len() + (y - y0),
                cells@.subrange(0, done.len() as int) == done,
                forall|b: int| 0 <= b < y - y0 ==> #[trigger] cells@[done.len() + b] == (x, (y0 + b) as usize),
            decreases y_end - y,
        {
            cells.push((x, y));
            assert(cells@.subrange(0, done.len() as int) =~= done);
            y = y + 1;
        }
        proof {
            let a0 = x - x0;
            assert((a0 + 1) * size == a0 * size + size) by (nonlinear_arith);
            assert forall|a: int, b: int| 0 <= a < a0 + 1 && 0 <= b < size implies #[trigger] cells@[a
                * size + b] == ((x0 + a) as usize, (y0 + b) as usize) by {
                if a < a0 {
                    assert(a * size + b < a0 * size) by (nonlinear_arith)
                        requires 0 <= a < a0, 0 <= b < size;
                    assert(cells@[a * size + b] == cells@.subrange(0, done.len() as int)[a * size + b]);
                } else {
                    assert(a * size + b == done.len() + b);
                }
            }
        }
        x = x + 1;
    }
    cells
}

} // verus!
