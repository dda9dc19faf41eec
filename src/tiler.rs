use vstd::prelude::*;
use vstd::arithmetic::div_mod::lemma_fundamental_div_mod_converse;

verus! {

/// Edge length of one grid square, in pixels.
pub const SQUARE_SIZE: u32 = 30;

/// Pixel pitch of one square: the square and the 1-pixel separator after it.
pub const SQUARE_PITCH: u32 = 31;

/// Squares along one side of a block, the unit copied in one blit.
pub const BLOCK_SQUARES: u32 = 5;

/// Largest number of squares along one side of a page: the pixel offset of
/// every square, and the page's extent, must fit the renderer's signed
/// 32-bit coordinates (`31 * n <= i32::MAX`).
pub const MAX_SQUARES: u32 = 69_273_666;

/// Pixels spanned by `n` squares with a separator between neighbours.
pub open spec fn span(n: int) -> int {
    n * (SQUARE_SIZE + 1) - 1
}

/// A grid size the page can be built with.
pub open spec fn valid_grid(cols: int, rows: int) -> bool {
    &&& 1 <= cols <= MAX_SQUARES
    &&& 1 <= rows <= MAX_SQUARES
}

/// Number of blocks along a side of `n` squares.
pub open spec fn block_count(n: int) -> int {
    (n + 4) / 5
}

/// Extent of the copy for the block that starts at square `origin` on a side
/// of `n` squares: a whole block unless the block starts past `n - 5`, in
/// which case the remaining squares without their trailing separator.
pub open spec fn block_extent(origin: int, n: int) -> int {
    if origin <= n - 5 {
        5 * (SQUARE_SIZE + 1)
    } else {
        (n % 5) * (SQUARE_SIZE + 1) - 1
    }
}

/// One copy from the spritesheet to the page bitmap: the region of size
/// `w` by `h` at the sheet's top-left corner goes to `(x, y)` on the page.
#[derive(Clone, Copy, Debug, PartialEq, Eq, Structural)]
pub struct Blit {
    pub x: i32,
    pub y: i32,
    pub w: u32,
    pub h: u32,
}

/// The copy for block row `bi`, block column `bj` of a `cols` by `rows` page.
pub open spec fn planned_blit(cols: int, rows: int, bi: int, bj: int) -> Blit {
    Blit {
        x: (5 * bj * (SQUARE_SIZE + 1)) as i32,
        y: (5 * bi * (SQUARE_SIZE + 1)) as i32,
        w: block_extent(5 * bj, cols) as u32,
        h: block_extent(5 * bi, rows) as u32,
    }
}

/// Width and height of the bitmap of a `cols` by `rows` page.
pub fn surface_size(page_size: (u32, u32)) -> (r: (u32, u32))
    requires
        valid_grid(page_size.0 as int, page_size.1 as int),
    ensures
        r.0 == span(page_size.0 as int),
        r.1 == span(page_size.1 as int),
{
    (SQUARE_PITCH * page_size.0 - 1, SQUARE_PITCH * page_size.1 - 1)
}

/// Copy extent of the block starting at square `origin` on a side of `n` squares.
fn extent(origin: u32, n: u32) -> (r: u32)
    requires
        origin < n,
        origin % 5 == 0,
    ensures
        r == block_extent(origin as int, n as int),
        r > 0,
{
    if origin as i64 <= n as i64 - 5 {
        BLOCK_SQUARES * SQUARE_PITCH
    } else {
        (n % BLOCK_SQUARES) * SQUARE_PITCH - 1
    }
}

/// The copies that build a page bitmap, block row by block row and, within a
/// row, left to right: entry `k` is the block in row `k / c`, column `k % c`,
/// with `c` blocks per row.
pub fn blit_plan(page_size: (u32, u32)) -> (r: Vec<Blit>)
    requires
        valid_grid(page_size.0 as int, page_size.1 as int),
    ensures
        r@.len() == block_count(page_size.0 as int) * block_count(page_size.1 as int),
        forall|k: int|
            0 <= k < r@.len() ==> #[trigger] r@[k] == planned_blit(
                page_size.0 as int,
                page_size.1 as int,
                k / block_count(page_size.0 as int),
                k % block_count(page_size.0 as int),
            ),
{
    let cols = page_size.0;
    let rows = page_size.1;
    let ghost c = block_count(cols as int);
    let mut plan: Vec<Blit> = Vec::new();
    let mut i: u32 = 0;
    while i < rows
        invariant
            valid_grid(cols as int, rows as int),
            c == block_count(cols as int),
            i % 5 == 0,
            i <= rows + 4,
            plan@.len() == (i / 5) * c,
            forall|k: int|
                0 <= k < plan@.len() ==> #[trigger] plan@[k] == planned_blit(
                    cols as int,
                    rows as int,
                    k / c,
                    k % c,
                ),
        decreases rows + 5 - i,
    {
        let h = extent(i, rows);
        let mut j: u32 = 0;
        while j < cols
            invariant
                valid_grid(cols as int, rows as int),
                c == block_count(cols as int),
                i < rows,
                i % 5 == 0,
                j % 5 == 0,
                j <= cols + 4,
                h == block_extent(i as int, rows as int),
                plan@.len() == (i / 5) * c + j / 5,
                forall|k: int|
                    0 <= k < plan@.len() ==> #[trigger] plan@[k] == planned_blit(
                        cols as int,
                        rows as int,
                        k / c,
                        k % c,
                    ),
            decreases cols + 5 - j,
        {
            let w = extent(j, cols);
            let b = Blit { x: (j * SQUARE_PITCH) as i32, y: (i * SQUARE_PITCH) as i32, w, h };
            proof {
                let k = plan@.len() as int;
                assert(j / 5 < c);
                lemma_fundamental_div_mod_converse(k, c, (i / 5) as int, (j / 5) as int);
                assert(5 * (j / 5) == j);
                assert(5 * (i / 5) == i);
                assert(b == planned_blit(cols as int, rows as int, k / c, k % c));
            }
            plan.push(b);
            j = j + BLOCK_SQUARES;
        }
        assert(j / 5 == c);
        assert((i / 5) * c + c == ((i + 5) / 5) * c) by (nonlinear_arith)
            requires i % 5 == 0;
        i = i + BLOCK_SQUARES;
    }
    assert(i / 5 == block_count(rows as int));
    assert(plan@.len() == c * block_count(rows as int)) by (nonlinear_arith)
        requires plan@.len() == (i / 5) * c, i / 5 == block_count(rows as int);
    plan
}

} // verus!
