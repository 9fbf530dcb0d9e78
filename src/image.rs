use vstd::prelude::*;
use vstd::arithmetic::div_mod::{lemma_fundamental_div_mod, lemma_mod_bound};

verus! {

/// The pixel `(x, y)` written at position `index` of an image `nx` wide and
/// `ny` high. Rows are written from the top of the image (`y = ny - 1`) down
/// to `y = 0`, and each row from `x = 0` to `x = nx - 1`.
pub open spec fn pixel_of(index: int, nx: int, ny: int) -> (int, int) {
    (index % nx, ny - 1 - index / nx)
}

/// The position in the output at which pixel `(x, y)` is written.
pub open spec fn index_of(x: int, y: int, nx: int, ny: int) -> int {
    (ny - 1 - y) * nx + x
}

/// The pixel `(x, y)` that comes at position `index` of the output stream of
/// an image `nx` wide and `ny` high.
pub fn pixel_at(index: usize, nx: usize, ny: usize) -> (r: (usize, usize))
    requires
        nx > 0,
        index < nx * ny,
    ensures
        (r.0 as int, r.1 as int) == pixel_of(index as int, nx as int, ny as int),
        r.0 < nx,
        r.1 < ny,
{
    proof {
        lemma_mod_bound(index as int, nx as int);
        lemma_row_in_range(index as int, nx as int, ny as int);
    }
    let row = index / nx;
    (index % nx, ny - 1 - row)
}

/// The position in the output stream at which pixel `(x, y)` of an image
/// `nx` wide and `ny` high is written.
pub fn output_index(x: usize, y: usize, nx: usize, ny: usize) -> (r: usize)
    requires
        x < nx,
        y < ny,
        nx * ny <= usize::MAX,
    ensures
        r as int == index_of(x as int, y as int, nx as int, ny as int),
        r < nx * ny,
{
    proof {
        lemma_index_in_range(x as int, y as int, nx as int, ny as int);
    }
    (ny - 1 - y) * nx + x
}

proof fn lemma_row_in_range(index: int, nx: int, ny: int)
    requires
        nx > 0,
        0 <= index < nx * ny,
    ensures
        0 <= index / nx < ny,
{
    lemma_fundamental_div_mod(index, nx);
    lemma_mod_bound(index, nx);
    if index / nx >= ny {
        assert(nx * (index / nx) >= nx * ny) by (nonlinear_arith)
            requires index / nx >= ny, nx > 0;
    }
    if index / nx < 0 {
        assert(nx * (index / nx) <= -nx) by (nonlinear_arith)
            requires index / nx < 0, nx > 0;
    }
}

proof fn lemma_index_in_range(x: int, y: int, nx: int, ny: int)
    requires
        0 <= x < nx,
        0 <= y < ny,
    ensures
        0 <= index_of(x, y, nx, ny) < nx * ny,
{
    let row = ny - 1 - y;
    assert(0 <= row * nx <= (ny - 1) * nx) by (nonlinear_arith)
        requires 0 <= row <= ny - 1, nx > 0;
    assert((ny - 1) * nx + nx == nx * ny) by (nonlinear_arith);
}

/// Every position of the output holds one pixel of the image, and every
/// pixel is written at exactly one position: the two maps are inverse.
pub proof fn lemma_layout_bijective(index: int, x: int, y: int, nx: int, ny: int)
    requires
        nx > 0,
        ny > 0,
    ensures
        0 <= index < nx * ny ==> ({
            let (px, py) = pixel_of(index, nx, ny);
            &&& 0 <= px < nx && 0 <= py < ny
            &&& index_of(px, py, nx, ny) == index
        }),
        0 <= x < nx && 0 <= y < ny ==> ({
            let i = index_of(x, y, nx, ny);
            &&& 0 <= i < nx * ny
            &&& pixel_of(i, nx, ny) == (x, y)
        }),
{
    if 0 <= index < nx * ny {
        lemma_row_in_range(index, nx, ny);
        lemma_fundamental_div_mod(index, nx);
        lemma_mod_bound(index, nx);
        assert(nx * (index / nx) == (index / nx) * nx) by (nonlinear_arith);
    }
    if 0 <= x < nx && 0 <= y < ny {
        lemma_index_in_range(x, y, nx, ny);
        let row = ny - 1 - y;
        let i = row * nx + x;
        vstd::arithmetic::div_mod::lemma_fundamental_div_mod_converse(i, nx, row, x);
    }
}

} // verus!
