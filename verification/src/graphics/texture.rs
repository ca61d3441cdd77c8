use vstd::prelude::*;
use crate::math::ordinal::{ordinal, ordinal_of, ONE};
use crate::raytracer::grid::{row_of, col_of, lemma_coords_of_index, lemma_index_in_area};

verus! {

/// A grid of samples in row-major order, with the name of the file it was
/// read from. The sample type is the user's.
pub struct Texture<T> {
    pub width: i32,
    pub height: i32,
    pub data: Vec<T>,
    pub filename: String,
}

/// One term of a filter sum: the index of a sample in the texture's data,
/// and the index in the kernel of the weight it is multiplied by.
#[derive(Clone, Copy, Debug, PartialEq, Eq, Structural)]
pub struct Tap {
    pub pixel: usize,
    pub weight: usize,
}

/// Does a texture coordinate wrap round? It does where it is above one:
/// only its fractional part then counts.
pub fn wraps(coordinate: i64) -> (b: bool)
    ensures
        b == (coordinate > ordinal_of(ONE)),
{
    coordinate > ordinal(ONE)
}

/// `v` moved to the nearest of the places `0` to `len - 1`.
pub open spec fn clamped(v: int, len: int) -> int {
    if v < 0 {
        0
    } else if v >= len {
        len - 1
    } else {
        v
    }
}

/// Half the kernel's side, rounded down: how far the taps reach from the
/// centre.
pub open spec fn reach(kernel_size: usize) -> int {
    kernel_size as int / 2
}

/// Taps in one row of the window round a sample, and rows in the window.
pub open spec fn window_side(kernel_size: usize) -> int {
    2 * reach(kernel_size) + 1
}

impl<T: Copy> Texture<T> {
    /// There is one sample for each place of the `width` by `height` grid.
    pub open spec fn wf(&self) -> bool {
        &&& 0 <= self.width
        &&& 0 <= self.height
        &&& self.data@.len() == self.width * self.height
    }

    /// The sample at column `x` and row `y` of the texture with a border
    /// one sample wide laid round it.
    pub open spec fn padded_sample(&self, border: T, x: int, y: int) -> T {
        if x == 0 || y == 0 || x == self.width + 1 || y == self.height + 1 {
            border
        } else {
            self.data@[(y - 1) * self.width + (x - 1)]
        }
    }

    /// The samples of the bordered texture in row-major order.
    pub open spec fn padded_data(&self, border: T) -> Seq<T> {
        Seq::new(
            ((self.width + 2) * (self.height + 2)) as nat,
            |k: int|
                self.padded_sample(
                    border,
                    col_of((self.width + 2) as nat, k as nat) as int,
                    row_of((self.width + 2) as nat, k as nat) as int,
                ),
        )
    }

    /// The tap in row `r` and column `c` of the window round (`x`, `y`):
    /// the sample `r - reach` rows below and `c - reach` columns right of
    /// it, moved onto the texture where it falls off, and the weight at row
    /// `r`, column `c` of a kernel with rows `kernel_size` long.
    pub open spec fn tap(&self, x: i32, y: i32, kernel_size: usize, r: int, c: int) -> Tap {
        let px = clamped(x + c - reach(kernel_size), self.width as int);
        let py = clamped(y + r - reach(kernel_size), self.height as int);
        Tap { pixel: (py * self.width + px) as usize, weight: (r * kernel_size + c) as usize }
    }

    /// The taps of the window round (`x`, `y`), row by row from the top
    /// left.
    pub open spec fn window(&self, x: i32, y: i32, kernel_size: usize) -> Seq<Tap> {
        Seq::new(
            (window_side(kernel_size) * window_side(kernel_size)) as nat,
            |k: int|
                self.tap(
                    x,
                    y,
                    kernel_size,
                    row_of(window_side(kernel_size) as nat, k as nat) as int,
                    col_of(window_side(kernel_size) as nat, k as nat) as int,
                ),
        )
    }

    /// A texture of the given samples. Dimensions that do not match the
    /// number of samples, or are negative, are refused.
    pub fn new(width: i32, height: i32, data: Vec<T>, filename: String) -> (r: Option<Texture<T>>)
        ensures
            0 <= width && 0 <= height && data@.len() == width * height ==> (r matches Some(t)
                && t.wf() && t.width == width && t.height == height && t.data@ == data@
                && t.filename@ == filename@),
            !(0 <= width && 0 <= height && data@.len() == width * height) ==> r.is_none(),
    {
        if width < 0 || height < 0 {
            return None;
        }
        let w: u64 = width as u64;
        let h: u64 = height as u64;
        assert(w * h <= 0x7fff_ffff * 0x7fff_ffff) by (nonlinear_arith)
            requires
                w <= 0x7fff_ffff,
                h <= 0x7fff_ffff,
        ;
        if data.len() as u64 != w * h {
            return None;
        }
        Some(Texture { width, height, data, filename })
    }

    /// Is there one sample for each place of the grid?
    pub fn is_wf(&self) -> (b: bool)
        ensures
            b == self.wf(),
    {
        if self.width < 0 || self.height < 0 {
            return false;
        }
        let w: u64 = self.width as u64;
        let h: u64 = self.height as u64;
        assert(w * h <= 0x7fff_ffff * 0x7fff_ffff) by (nonlinear_arith)
            requires
                w <= 0x7fff_ffff,
                h <= 0x7fff_ffff,
        ;
        self.data.len() as u64 == w * h
    }

    /// The sample at `index` of the data; `None` past the last sample.
    pub fn sample(&self, index: usize) -> (s: Option<T>)
        ensures
            index < self.data@.len() ==> s == Some(self.data@[index as int]),
            index >= self.data@.len() ==> s.is_none(),
    {
        if index < self.data.len() {
            Some(self.data[index])
        } else {
            None
        }
    }

    /// The texture with a border one sample wide laid round it: two
    /// samples wider, two higher, `border` on the rim and the old samples
    /// inside, each one column right and one row down of where it was.
    pub fn pad(&self, border: T) -> (padded: Texture<T>)
        requires
            self.wf(),
            self.width + 2 <= i32::MAX,
            self.height + 2 <= i32::MAX,
        ensures
            padded.wf(),
            padded.width == self.width + 2,
            padded.height == self.height + 2,
            padded.filename@ == self.filename@,
            padded.data@ == self.padded_data(border),
    {
        let w: usize = self.width as usize;
        let h: usize = self.height as usize;
        let n: usize = self.data.len();
        let ghost cols: nat = (w + 2) as nat;
        let mut data: Vec<T> = Vec::new();
        let mut y: usize = 0;
        while y < h + 2
            invariant
                self.wf(),
                w == self.width,
                h == self.height,
                n == w * h,
                w + 2 <= i32::MAX,
                h + 2 <= i32::MAX,
                cols == w + 2,
                y <= h + 2,
                data@.len() == y * cols,
                forall|k: int|
                    0 <= k < data@.len() ==> #[trigger] data@[k] == self.padded_sample(
                        border,
                        col_of(cols, k as nat) as int,
                        row_of(cols, k as nat) as int,
                    ),
            decreases h + 2 - y,
        {
            let mut x: usize = 0;
            while x < w + 2
                invariant
                    self.wf(),
                    w == self.width,
                    h == self.height,
                    n == w * h,
                    w + 2 <= i32::MAX,
                    h + 2 <= i32::MAX,
                    cols == w + 2,
                    y < h + 2,
                    x <= w + 2,
                    data@.len() == y * cols + x,
                    forall|k: int|
                        0 <= k < data@.len() ==> #[trigger] data@[k] == self.padded_sample(
                            border,
                            col_of(cols, k as nat) as int,
                            row_of(cols, k as nat) as int,
                        ),
                decreases w + 2 - x,
            {
                let sample = if x == 0 || y == 0 || x == w + 1 || y == h + 1 {
                    border
                } else {
                    proof {
                        lemma_index_in_area(w as nat, h as nat, (y - 1) as nat, (x - 1) as nat);
                    }
                    self.data[(y - 1) * w + (x - 1)]
                };
                proof {
                    lemma_coords_of_index(cols, y as nat, x as nat);
                }
                data.push(sample);
                x = x + 1;
            }
            y = y + 1;
            assert((y - 1) * cols + cols == y * cols) by (nonlinear_arith);
        }
        assert(data@.len() == (self.width + 2) * (self.height + 2)) by (nonlinear_arith)
            requires
                data@.len() == y * cols,
                y == self.height + 2,
                cols == self.width + 2,
        ;
        assert(data@ =~= self.padded_data(border));
        Texture {
            width: self.width + 2,
            height: self.height + 2,
            data,
            filename: self.filename.clone(),
        }
    }

    /// The taps of a filter kernel laid with its centre on (`x`, `y`): one
    /// for each place of the square window that reaches `kernel_size / 2`
    /// samples each way, row by row from the top left. A tap that would
    /// fall off the texture takes the nearest sample on it.
    pub fn taps(&self, x: i32, y: i32, kernel_size: usize) -> (out: Vec<Tap>)
        requires
            self.wf(),
            self.width >= 1,
            self.height >= 1,
            (kernel_size + 1) * (kernel_size + 1) <= usize::MAX,
        ensures
            out@ == self.window(x, y, kernel_size),
            forall|k: int| 0 <= k < out@.len() ==> (#[trigger] out@[k]).pixel < self.data@.len(),
    {
        let w: i64 = self.width as i64;
        let h: i64 = self.height as i64;
        let n: usize = self.data.len();
        let half: usize = kernel_size / 2;
        assert(kernel_size < 0x1_0000_0000) by (nonlinear_arith)
            requires
                (kernel_size + 1) * (kernel_size + 1) <= usize::MAX,
                usize::MAX <= 0xffff_ffff_ffff_ffff,
        ;
        let side: usize = 2 * half + 1;
        let ghost cols: nat = side as nat;
        let mut out: Vec<Tap> = Vec::new();
        let mut r: usize = 0;
        while r < side
            invariant
                self.wf(),
                w == self.width,
                h == self.height,
                n == w * h,
                w >= 1,
                h >= 1,
                half == reach(kernel_size),
                side == window_side(kernel_size),
                cols == side,
                kernel_size < 0x1_0000_0000,
                (kernel_size + 1) * (kernel_size + 1) <= usize::MAX,
                r <= side,
                out@.len() == r * cols,
                forall|k: int|
                    0 <= k < out@.len() ==> #[trigger] out@[k] == self.tap(
                        x,
                        y,
                        kernel_size,
                        row_of(cols, k as nat) as int,
                        col_of(cols, k as nat) as int,
                    ),
                forall|k: int| 0 <= k < out@.len() ==> (#[trigger] out@[k]).pixel < n,
            decreases side - r,
        {
            let mut c: usize = 0;
            while c < side
                invariant
                    self.wf(),
                    w == self.width,
                    h == self.height,
                    n == w * h,
                    w >= 1,
                    h >= 1,
                    half == reach(kernel_size),
                    side == window_side(kernel_size),
                    cols == side,
                    kernel_size < 0x1_0000_0000,
                    (kernel_size + 1) * (kernel_size + 1) <= usize::MAX,
                    r < side,
                    c <= side,
                    out@.len() == r * cols + c,
                    forall|k: int|
                        0 <= k < out@.len() ==> #[trigger] out@[k] == self.tap(
                            x,
                            y,
                            kernel_size,
                            row_of(cols, k as nat) as int,
                            col_of(cols, k as nat) as int,
                        ),
                    forall|k: int| 0 <= k < out@.len() ==> (#[trigger] out@[k]).pixel < n,
                decreases side - c,
            {
                let dx: i64 = x as i64 + c as i64 - half as i64;
                let dy: i64 = y as i64 + r as i64 - half as i64;
                let px: i64 = if dx < 0 {
                    0
                } else if dx >= w {
                    w - 1
                } else {
                    dx
                };
                let py: i64 = if dy < 0 {
                    0
                } else if dy >= h {
                    h - 1
                } else {
                    dy
                };
                proof {
                    lemma_index_in_area(w as nat, h as nat, py as nat, px as nat);
                    lemma_coords_of_index(cols, r as nat, c as nat);
                    assert(r * kernel_size + c < (kernel_size + 1) * (kernel_size + 1))
                        by (nonlinear_arith)
                        requires
                            r <= kernel_size,
                            c <= kernel_size,
                    ;
                }
                let row_start: usize = (py as usize) * (w as usize);
                let tap = Tap { pixel: row_start + px as usize, weight: r * kernel_size + c };
                assert(tap == self.tap(x, y, kernel_size, r as int, c as int));
                out.push(tap);
                c = c + 1;
            }
            r = r + 1;
            assert((r - 1) * cols + cols == r * cols) by (nonlinear_arith);
        }
        assert(out@ =~= self.window(x, y, kernel_size));
        out
    }
}

} // verus!
