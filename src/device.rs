use vstd::prelude::*;

verus! {

/// Number of `f32` elements in one vector register of the host kernel.
pub const LANES: usize = 4;

/// Largest number of threads that one GPU thread block may hold.
pub const MAX_THREADS_PER_BLOCK: usize = 1024;

/// Why a matrix product cannot be computed as asked.
#[derive(Debug, Clone, Copy, PartialEq, Eq, Structural)]
pub enum MatmulError {
    /// `width` or `o_cols` is not a multiple of `LANES`.
    Misaligned,
    /// A buffer's length is not the product of its dimensions.
    LengthMismatch,
    /// The output has more elements than one thread block has threads.
    TooManyThreads,
}

/// The dimensions of `o = a * b`, where `a` is `o_rows x width`, `b` is
/// `width x o_cols` and `o` is `o_rows x o_cols`, all stored row-major.
#[derive(Debug, Clone, Copy, PartialEq, Eq, Structural)]
pub struct MatmulShape {
    pub width: usize,
    pub o_rows: usize,
    pub o_cols: usize,
}

/// Whether buffers of the given lengths hold matrices of the given dimensions.
pub open spec fn lengths_match(
    a_len: int,
    b_len: int,
    o_len: int,
    width: int,
    o_rows: int,
    o_cols: int,
) -> bool {
    a_len == o_rows * width && b_len == width * o_cols && o_len == o_rows * o_cols
}

/// Whether the host kernel can walk rows of `a` and `b` a whole vector at a time.
pub open spec fn is_aligned(width: int, o_cols: int) -> bool {
    width % (LANES as int) == 0 && o_cols % (LANES as int) == 0
}

/// Whether an `o_rows x o_cols` output fits in one thread block, with each
/// side of the block no longer than the whole block may be.
pub open spec fn fits_one_block(o_rows: int, o_cols: int) -> bool {
    o_rows <= MAX_THREADS_PER_BLOCK && o_cols <= MAX_THREADS_PER_BLOCK && o_rows * o_cols
        <= MAX_THREADS_PER_BLOCK
}

impl MatmulShape {
    pub open spec fn wf(&self) -> bool {
        self.o_rows * self.width <= usize::MAX && self.width * self.o_cols <= usize::MAX
            && self.o_rows * self.o_cols <= usize::MAX
    }

    /// Checks that the three buffers hold matrices of the given dimensions.
    pub fn new(
        a_len: usize,
        b_len: usize,
        o_len: usize,
        width: usize,
        o_rows: usize,
        o_cols: usize,
    ) -> (r: Result<MatmulShape, MatmulError>)
        ensures
            r is Ok <==> lengths_match(
                a_len as int,
                b_len as int,
                o_len as int,
                width as int,
                o_rows as int,
                o_cols as int,
            ),
            r is Ok ==> r->Ok_0.wf() && r->Ok_0.width == width && r->Ok_0.o_rows == o_rows
                && r->Ok_0.o_cols == o_cols,
            r is Err ==> r->Err_0 == MatmulError::LengthMismatch,
    {
        let a_ok = match o_rows.checked_mul(width) {
            Some(n) => n == a_len,
            None => false,
        };
        let b_ok = match width.checked_mul(o_cols) {
            Some(n) => n == b_len,
            None => false,
        };
        let o_ok = match o_rows.checked_mul(o_cols) {
            Some(n) => n == o_len,
            None => false,
        };
        if a_ok && b_ok && o_ok {
            Ok(MatmulShape { width, o_rows, o_cols })
        } else {
            Err(MatmulError::LengthMismatch)
        }
    }

    /// Position of `a[i][k]` in `a`.
    pub fn a_index(&self, i: usize, k: usize) -> (r: usize)
        requires
            self.wf(),
            i < self.o_rows,
            k < self.width,
        ensures
            r == i * self.width + k,
            r < self.o_rows * self.width,
    {
        proof {
            lemma_row_major_in_bounds(i as int, k as int, self.o_rows as int, self.width as int);
        }
        i * self.width + k
    }

    /// Position of `b[k][j]` in `b`.
    pub fn b_index(&self, k: usize, j: usize) -> (r: usize)
        requires
            self.wf(),
            k < self.width,
            j < self.o_cols,
        ensures
            r == k * self.o_cols + j,
            r < self.width * self.o_cols,
    {
        proof {
            lemma_row_major_in_bounds(k as int, j as int, self.width as int, self.o_cols as int);
        }
        k * self.o_cols + j
    }

    /// Position of `o[i][j]` in `o`.
    pub fn o_index(&self, i: usize, j: usize) -> (r: usize)
        requires
            self.wf(),
            i < self.o_rows,
            j < self.o_cols,
        ensures
            r == i * self.o_cols + j,
            r < self.o_rows * self.o_cols,
    {
        proof {
            lemma_row_major_in_bounds(i as int, j as int, self.o_rows as int, self.o_cols as int);
        }
        i * self.o_cols + j
    }
}

/// Element `(row, col)` of a row-major `rows x cols` matrix lies inside it.
pub proof fn lemma_row_major_in_bounds(row: int, col: int, rows: int, cols: int)
    requires
        0 <= row < rows,
        0 <= col < cols,
    ensures
        0 <= row * cols + col < rows * cols,
{
    assert(0 <= row * cols) by (nonlinear_arith)
        requires
            0 <= row,
            0 <= cols,
    ;
    assert((row + 1) * cols <= rows * cols) by (nonlinear_arith)
        requires
            row + 1 <= rows,
            0 <= cols,
    ;
    assert((row + 1) * cols == row * cols + cols) by (nonlinear_arith);
}

/// The host backend, which multiplies a vector of `LANES` elements at a time.
pub struct CPU {}

impl CPU {
    /// Refuses a `width` or `o_cols` that is not a multiple of `LANES`.
    pub fn check_alignment(width: usize, o_cols: usize) -> (r: Result<(), MatmulError>)
        ensures
            r is Ok <==> is_aligned(width as int, o_cols as int),
            r is Err ==> r->Err_0 == MatmulError::Misaligned,
    {
        if width % LANES != 0 || o_cols % LANES != 0 {
            Err(MatmulError::Misaligned)
        } else {
            Ok(())
        }
    }

    /// Decides whether the host kernel may run on buffers of these lengths:
    /// misalignment is reported first, then lengths that do not match.
    pub fn plan(
        a_len: usize,
        b_len: usize,
        o_len: usize,
        width: usize,
        o_rows: usize,
        o_cols: usize,
    ) -> (r: Result<MatmulShape, MatmulError>)
        ensures
            !is_aligned(width as int, o_cols as int) ==> r == Err::<MatmulShape, MatmulError>(
                MatmulError::Misaligned,
            ),
            is_aligned(width as int, o_cols as int) && !lengths_match(
                a_len as int,
                b_len as int,
                o_len as int,
                width as int,
                o_rows as int,
                o_cols as int,
            ) ==> r == Err::<MatmulShape, MatmulError>(MatmulError::LengthMismatch),
            is_aligned(width as int, o_cols as int) && lengths_match(
                a_len as int,
                b_len as int,
                o_len as int,
                width as int,
                o_rows as int,
                o_cols as int,
            ) ==> r == Ok::<MatmulShape, MatmulError>(MatmulShape { width, o_rows, o_cols }),
            r is Ok ==> r->Ok_0.wf(),
    {
        match CPU::check_alignment(width, o_cols) {
            Err(e) => Err(e),
            Ok(()) => MatmulShape::new(a_len, b_len, o_len, width, o_rows, o_cols),
        }
    }
}

/// The GPU backend, which runs one thread per output element in a single block.
pub struct GPU {}

impl GPU {
    /// Decides whether the kernel may run on buffers of these lengths: lengths
    /// that do not match are reported first, then an output larger than one
    /// thread block.
    pub fn plan(
        a_len: usize,
        b_len: usize,
        o_len: usize,
        width: usize,
        o_rows: usize,
        o_cols: usize,
    ) -> (r: Result<MatmulShape, MatmulError>)
        ensures
            !lengths_match(
                a_len as int,
                b_len as int,
                o_len as int,
                width as int,
                o_rows as int,
                o_cols as int,
            ) ==> r == Err::<MatmulShape, MatmulError>(MatmulError::LengthMismatch),
            lengths_match(
                a_len as int,
                b_len as int,
                o_len as int,
                width as int,
                o_rows as int,
                o_cols as int,
            ) && !fits_one_block(o_rows as int, o_cols as int) ==> r == Err::<MatmulShape, MatmulError>(
                MatmulError::TooManyThreads,
            ),
            lengths_match(
                a_len as int,
                b_len as int,
                o_len as int,
                width as int,
                o_rows as int,
                o_cols as int,
            ) && fits_one_block(o_rows as int, o_cols as int) ==> r == Ok::<MatmulShape, MatmulError>(
                MatmulShape { width, o_rows, o_cols },
            ),
            r is Ok ==> r->Ok_0.wf(),
    {
        match MatmulShape::new(a_len, b_len, o_len, width, o_rows, o_cols) {
            Err(e) => Err(e),
            Ok(shape) => {
                if o_rows > MAX_THREADS_PER_BLOCK || o_cols > MAX_THREADS_PER_BLOCK || o_len
                    > MAX_THREADS_PER_BLOCK {
                    Err(MatmulError::TooManyThreads)
                } else {
                    Ok(shape)
                }
            },
        }
    }

    /// The thread block of one launch: `o_cols` threads across, `o_rows` down.
    pub fn block_dim(shape: &MatmulShape) -> (r: (u32, u32, u32))
        requires
            fits_one_block(shape.o_rows as int, shape.o_cols as int),
        ensures
            r.0 == shape.o_cols,
            r.1 == shape.o_rows,
            r.2 == 1,
    {
        (shape.o_cols as u32, shape.o_rows as u32, 1)
    }
}

} // verus!
