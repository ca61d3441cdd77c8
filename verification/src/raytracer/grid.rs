use vstd::prelude::*;

verus! {

/// Why a scene cannot be rendered as it is configured.
#[derive(Clone, Copy, Debug, PartialEq, Eq, Structural)]
pub enum ConfigError {
    /// View direction and up direction are too close to parallel to span a
    /// stable camera basis.
    NearlyParallel,
    /// The width is zero or negative.
    ZeroWidth,
    /// The height is zero or negative.
    ZeroHeight,
    /// The pixel count does not fit in an index of this machine.
    TooLarge,
}

/// Index of pixel (`row`, `col`) in a row-major buffer `cols` wide.
pub open spec fn index_of(cols: nat, row: nat, col: nat) -> nat {
    row * cols + col
}

/// Row of the pixel at `index` in a row-major buffer `cols` wide.
pub open spec fn row_of(cols: nat, index: nat) -> nat {
    index / cols
}

/// Column of the pixel at `index` in a row-major buffer `cols` wide.
pub open spec fn col_of(cols: nat, index: nat) -> nat {
    index % cols
}

/// The pixel grid of an image: at least one column and one row, and few
/// enough pixels that each has an index.
pub struct PixelGrid {
    width: usize,
    height: usize,
}

impl PixelGrid {
    #[verifier::type_invariant]
    spec fn inv(self) -> bool {
        &&& 1 <= self.width
        &&& 1 <= self.height
        &&& self.width * self.height <= usize::MAX
    }

    /// Number of columns.
    pub closed spec fn cols(self) -> nat {
        self.width as nat
    }

    /// Number of rows.
    pub closed spec fn rows(self) -> nat {
        self.height as nat
    }

    /// Number of pixels.
    pub open spec fn area(self) -> nat {
        self.cols() * self.rows()
    }

    /// Does pixel (`row`, `col`) lie on the grid?
    pub open spec fn holds(self, row: nat, col: nat) -> bool {
        row < self.rows() && col < self.cols()
    }

    /// The grid of a `width` by `height` image. A dimension below one is
    /// refused, the width first; so is a pixel count beyond `usize`.
    pub fn new(width: i32, height: i32) -> (r: Result<PixelGrid, ConfigError>)
        ensures
            width <= 0 ==> r.is_err() && r->Err_0 == ConfigError::ZeroWidth,
            width > 0 && height <= 0 ==> r.is_err() && r->Err_0 == ConfigError::ZeroHeight,
            width > 0 && height > 0 && width * height > usize::MAX ==> r.is_err() && r->Err_0
                == ConfigError::TooLarge,
            width > 0 && height > 0 && width * height <= usize::MAX ==> (r matches Ok(g)
                && g.cols() == width && g.rows() == height),
    {
        if width <= 0 {
            return Err(ConfigError::ZeroWidth);
        }
        if height <= 0 {
            return Err(ConfigError::ZeroHeight);
        }
        let w: u64 = width as u64;
        let h: u64 = height as u64;
        assert(w * h <= 0x7fff_ffff * 0x7fff_ffff) by (nonlinear_arith)
            requires
                0 < w <= 0x7fff_ffff,
                0 < h <= 0x7fff_ffff,
        ;
        let n: u64 = w * h;
        if n > usize::MAX as u64 {
            return Err(ConfigError::TooLarge);
        }
        Ok(PixelGrid { width: width as usize, height: height as usize })
    }

    /// Number of columns, at least one.
    pub fn width(&self) -> (w: usize)
        ensures
            w == self.cols(),
            w >= 1,
    {
        proof {
            use_type_invariant(self);
        }
        self.width
    }

    /// Number of rows, at least one.
    pub fn height(&self) -> (h: usize)
        ensures
            h == self.rows(),
            h >= 1,
    {
        proof {
            use_type_invariant(self);
        }
        self.height
    }

    /// Number of pixels, at least one.
    pub fn len(&self) -> (n: usize)
        ensures
            n == self.area(),
            n >= 1,
    {
        proof {
            use_type_invariant(self);
            assert(self.width * self.height >= 1) by (nonlinear_arith)
                requires
                    self.width >= 1,
                    self.height >= 1,
            ;
        }
        self.width * self.height
    }

    /// Where pixel (`row`, `col`) stands in a row-major buffer; `None` off
    /// the grid.
    pub fn index(&self, row: usize, col: usize) -> (k: Option<usize>)
        ensures
            self.holds(row as nat, col as nat) ==> k == Some(
                index_of(self.cols(), row as nat, col as nat) as usize,
            ) && index_of(self.cols(), row as nat, col as nat) < self.area(),
            !self.holds(row as nat, col as nat) ==> k.is_none(),
    {
        proof {
            use_type_invariant(self);
        }
        if row < self.height && col < self.width {
            proof {
                lemma_index_in_area(self.cols(), self.rows(), row as nat, col as nat);
            }
            Some(row * self.width + col)
        } else {
            None
        }
    }

    /// The (row, column) of the pixel at `index`; `None` past the last pixel.
    pub fn coords(&self, index: usize) -> (p: Option<(usize, usize)>)
        ensures
            index < self.area() ==> p == Some(
                (
                    row_of(self.cols(), index as nat) as usize,
                    col_of(self.cols(), index as nat) as usize,
                ),
            ) && self.holds(row_of(self.cols(), index as nat), col_of(self.cols(), index as nat)),
            index >= self.area() ==> p.is_none(),
    {
        proof {
            use_type_invariant(self);
        }
        if index < self.width * self.height {
            proof {
                lemma_coords_on_grid(self.cols(), self.rows(), index as nat);
            }
            Some((index / self.width, index % self.width))
        } else {
            None
        }
    }
}

/// A pixel on the grid has an index below the pixel count.
pub proof fn lemma_index_in_area(cols: nat, rows: nat, row: nat, col: nat)
    requires
        row < rows,
        col < cols,
    ensures
        index_of(cols, row, col) < cols * rows,
        row * cols <= index_of(cols, row, col),
{
    assert(row * cols + cols <= cols * rows) by (nonlinear_arith)
        requires
            row + 1 <= rows,
    ;
}

/// An index below the pixel count names a pixel on the grid.
pub proof fn lemma_coords_on_grid(cols: nat, rows: nat, index: nat)
    requires
        index < cols * rows,
    ensures
        row_of(cols, index) < rows,
        col_of(cols, index) < cols,
{
    assert(cols > 0) by (nonlinear_arith)
        requires
            index < cols * rows,
    ;
    vstd::arithmetic::div_mod::lemma_fundamental_div_mod(index as int, cols as int);
    vstd::arithmetic::div_mod::lemma_mod_bound(index as int, cols as int);
    let q = index as int / cols as int;
    assert(0 <= q) by {
        vstd::arithmetic::div_mod::lemma_div_pos_is_pos(index as int, cols as int);
    }
    assert(q < rows) by (nonlinear_arith)
        requires
            cols * q <= index,
            index < cols * rows,
            cols > 0,
            0 <= q,
    ;
}

/// Row-major indexing and its reading back undo each other: the index of
/// pixel (`row`, `col`) reads back as that row and that column.
pub proof fn lemma_coords_of_index(cols: nat, row: nat, col: nat)
    requires
        col < cols,
    ensures
        row_of(cols, index_of(cols, row, col)) == row,
        col_of(cols, index_of(cols, row, col)) == col,
{
    vstd::arithmetic::div_mod::lemma_fundamental_div_mod_converse(
        (row * cols + col) as int,
        cols as int,
        row as int,
        col as int,
    );
}

/// Reading an index back as a row and a column and indexing that pixel
/// returns the index.
pub proof fn lemma_index_of_coords(cols: nat, index: nat)
    requires
        cols > 0,
    ensures
        index_of(cols, row_of(cols, index), col_of(cols, index)) == index,
{
    vstd::arithmetic::div_mod::lemma_fundamental_div_mod(index as int, cols as int);
    vstd::arithmetic::div_mod::lemma_div_pos_is_pos(index as int, cols as int);
    vstd::arithmetic::div_mod::lemma_mod_bound(index as int, cols as int);
    assert(cols as int * (index as int / cols as int) == (index as int / cols as int) * cols as int)
        by (nonlinear_arith);
}

/// Row-major order is the reading order: one pixel's index is below
/// another's exactly when it stands in an earlier row, or earlier in the
/// same row.
pub proof fn lemma_row_major_order(cols: nat, r1: nat, c1: nat, r2: nat, c2: nat)
    requires
        c1 < cols,
        c2 < cols,
    ensures
        index_of(cols, r1, c1) < index_of(cols, r2, c2) <==> (r1 < r2 || (r1 == r2 && c1 < c2)),
{
    if r1 < r2 {
        assert(r1 * cols + cols <= r2 * cols) by (nonlinear_arith)
            requires
                r1 + 1 <= r2,
        ;
    } else if r2 < r1 {
        assert(r2 * cols + cols <= r1 * cols) by (nonlinear_arith)
            requires
                r2 + 1 <= r1,
        ;
    }
}

} // verus!
