use vstd::prelude::*;
use rayon::iter::IntoParallelIterator;
use rayon::iter::ParallelIterator;
use crate::raytracer::grid::{
    PixelGrid, index_of, row_of, col_of, lemma_coords_of_index, lemma_coords_on_grid,
    lemma_index_in_area,
};

verus! {

/// `out` is a rendering of `grid` by `trace`: it has one entry for each
/// pixel, in row-major order, and the entry of pixel (`row`, `col`) is a
/// value that `trace(row, col)` may return.
pub open spec fn renders<T, F: Fn(usize, usize) -> T>(
    trace: F,
    grid: PixelGrid,
    out: Seq<T>,
) -> bool {
    &&& out.len() == grid.area()
    &&& forall|k: int|
        0 <= k < out.len() ==> call_ensures(
            trace,
            (row_of(grid.cols(), k as nat) as usize, col_of(grid.cols(), k as nat) as usize),
            #[trigger] out[k],
        )
}

/// `rayon`'s `into_par_iter` on the range `0..n`, then `map` with `f`, then
/// `collect` into a `Vec`: the calls run on the worker pool in no stated
/// order, and the results are collected in the order of the range, so that
/// the entry at `k` is what `f(k)` returned.
#[verifier::external_body]
fn par_map<T: Send, F: Fn(usize) -> T + Sync + Send>(n: usize, f: F) -> (out: Vec<T>)
    requires
        forall|k: usize| k < n ==> call_requires(f, (k,)),
    ensures
        out@.len() == n,
        forall|k: int| 0 <= k < n ==> call_ensures(f, (k as usize,), #[trigger] out@[k]),
{
    (0..n).into_par_iter().map(f).collect()
}

/// Traces every pixel of `grid`, one independent unit of work per pixel
/// spread over the worker pool, and gathers the results in row-major order:
/// the entry at `row * width + col` is what `trace(row, col)` returned,
/// whichever worker ran it and whenever.
pub fn trace_rays<T: Send, F: Fn(usize, usize) -> T + Sync + Send>(
    grid: &PixelGrid,
    trace: F,
) -> (out: Vec<T>)
    requires
        forall|row: usize, col: usize|
            grid.holds(row as nat, col as nat) ==> call_requires(trace, (row, col)),
    ensures
        renders(trace, *grid, out@),
{
    let width = grid.width();
    let n = grid.len();
    let ghost cols = grid.cols();
    let ghost rows = grid.rows();
    let tracer = &trace;
    let pixel = |k: usize| -> (c: T)
        requires
            width > 0,
            call_requires(tracer, (k / width, k % width)),
        ensures
            call_ensures(tracer, (k / width, k % width), c),
        {
            tracer(k / width, k % width)
        };
    assert forall|k: usize| k < n implies call_requires(pixel, (k,)) by {
        lemma_coords_on_grid(cols, rows, k as nat);
        assert(grid.holds((k / width) as nat, (k % width) as nat));
    }
    par_map(n, pixel)
}

/// In a rendering the pixel in row `row` and column `col` stands at index
/// `row * width + col`, and is a value that `trace(row, col)` may return.
pub proof fn lemma_rendering_at<T, F: Fn(usize, usize) -> T>(
    trace: F,
    grid: PixelGrid,
    out: Seq<T>,
    row: usize,
    col: usize,
)
    requires
        renders(trace, grid, out),
        grid.holds(row as nat, col as nat),
    ensures
        index_of(grid.cols(), row as nat, col as nat) < out.len(),
        call_ensures(trace, (row, col), out[index_of(grid.cols(), row as nat, col as nat) as int]),
{
    lemma_index_in_area(grid.cols(), grid.rows(), row as nat, col as nat);
    lemma_coords_of_index(grid.cols(), row as nat, col as nat);
}

/// Rendering does not depend on the order of work: where `trace` yields a
/// single value for each pixel, any two renderings of the grid by it are the
/// same buffer.
pub proof fn lemma_rendering_is_unique<T, F: Fn(usize, usize) -> T>(
    trace: F,
    grid: PixelGrid,
    a: Seq<T>,
    b: Seq<T>,
)
    requires
        renders(trace, grid, a),
        renders(trace, grid, b),
        forall|row: usize, col: usize, x: T, y: T|
            call_ensures(trace, (row, col), x) && call_ensures(trace, (row, col), y) ==> x == y,
    ensures
        a == b,
{
    assert(a =~= b);
}

} // verus!
