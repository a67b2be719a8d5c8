//! The hardware-agnostic description of a batched matmul problem, and the
//! builder that derives one from raw shape, stride, and vector-width metadata.

use vstd::prelude::*;

use crate::matmul::error::FusedMatmulError;
use crate::util::vec_prefix;

verus! {

/// Memory-order interpretation of the trailing two dimensions of an operand.
#[derive(Clone, Copy, PartialEq, Eq, Structural, Debug)]
pub enum MatrixLayout {
    /// Rows are laid out above columns.
    RowMajor,
    /// Columns are laid out above rows.
    ColMajor,
}

/// The matrix layout a transposition flag stands for.
pub open spec fn layout_of_transposed(transposed: bool) -> MatrixLayout {
    if transposed {
        MatrixLayout::ColMajor
    } else {
        MatrixLayout::RowMajor
    }
}

/// A batched matmul problem: `m * k` times `k * n` matrices over the given
/// batch dimensions, with each operand's layout and vector (line) width.
/// Constructed fresh per launch and immutable once built.
#[derive(Debug)]
pub struct MatmulProblem {
    /// Rows of the left-hand matrices and of the result.
    pub m: usize,
    /// Columns of the right-hand matrices and of the result.
    pub n: usize,
    /// Columns of the left-hand matrices, rows of the right-hand matrices.
    pub k: usize,
    /// Leading (batch) dimensions of the left-hand and right-hand operands;
    /// broadcasting between them is resolved by the downstream kernel.
    pub batches: (Vec<usize>, Vec<usize>),
    /// Layout of the left-hand operand.
    pub lhs_layout: MatrixLayout,
    /// Layout of the right-hand operand.
    pub rhs_layout: MatrixLayout,
    /// Vector width of the left-hand operand.
    pub lhs_line_size: u32,
    /// Vector width of the right-hand operand.
    pub rhs_line_size: u32,
    /// Vector width of the output.
    pub out_line_size: u32,
}

/// Abstract value of a [`MatmulProblem`].
pub struct MatmulProblemView {
    /// Rows of the left-hand matrices and of the result.
    pub m: usize,
    /// Columns of the right-hand matrices and of the result.
    pub n: usize,
    /// Columns of the left-hand matrices, rows of the right-hand matrices.
    pub k: usize,
    /// Leading (batch) dimensions of the two operands.
    pub batches: (Seq<usize>, Seq<usize>),
    /// Layout of the left-hand operand.
    pub lhs_layout: MatrixLayout,
    /// Layout of the right-hand operand.
    pub rhs_layout: MatrixLayout,
    /// Vector width of the left-hand operand.
    pub lhs_line_size: u32,
    /// Vector width of the right-hand operand.
    pub rhs_line_size: u32,
    /// Vector width of the output.
    pub out_line_size: u32,
}

impl View for MatmulProblem {
    type V = MatmulProblemView;

    open spec fn view(&self) -> MatmulProblemView {
        MatmulProblemView {
            m: self.m,
            n: self.n,
            k: self.k,
            batches: (self.batches.0@, self.batches.1@),
            lhs_layout: self.lhs_layout,
            rhs_layout: self.rhs_layout,
            lhs_line_size: self.lhs_line_size,
            rhs_line_size: self.rhs_line_size,
            out_line_size: self.out_line_size,
        }
    }
}

/// A unit output line beside a wider input line is rejected: a unit output
/// line forces scalar-per-lane writes, and wider input lanes would read out of
/// bounds of the narrower output iteration.
pub open spec fn line_sizes_invalid(
    lhs_line_size: u32,
    rhs_line_size: u32,
    out_line_size: u32,
) -> bool {
    out_line_size == 1 && (lhs_line_size > 1 || rhs_line_size > 1)
}

/// The problem the given shapes, transposition flags, and line widths
/// describe: the matrix dimensions are the trailing two dimensions of each
/// shape, every leading dimension is a batch dimension.
pub open spec fn problem_of(
    lhs_shape: Seq<usize>,
    rhs_shape: Seq<usize>,
    lhs_transposed: bool,
    rhs_transposed: bool,
    lhs_line_size: u32,
    rhs_line_size: u32,
    out_line_size: u32,
) -> MatmulProblemView
    recommends
        lhs_shape.len() >= 2,
        rhs_shape.len() >= 2,
{
    MatmulProblemView {
        m: lhs_shape[lhs_shape.len() - 2],
        n: rhs_shape[rhs_shape.len() - 1],
        k: lhs_shape[lhs_shape.len() - 1],
        batches: (
            lhs_shape.subrange(0, lhs_shape.len() - 2),
            rhs_shape.subrange(0, rhs_shape.len() - 2),
        ),
        lhs_layout: layout_of_transposed(lhs_transposed),
        rhs_layout: layout_of_transposed(rhs_transposed),
        lhs_line_size,
        rhs_line_size,
        out_line_size,
    }
}

/// Build the matmul problem for one launch. The input line sizes are validated
/// against the resolved output line size before any problem value is
/// constructed; incompatible widths are invalid input.
pub fn build_problem(
    lhs_shape: &Vec<usize>,
    rhs_shape: &Vec<usize>,
    lhs_transposed: bool,
    rhs_transposed: bool,
    lhs_line_size: u32,
    rhs_line_size: u32,
    out_line_size: u32,
) -> (r: Result<MatmulProblem, FusedMatmulError>)
    requires
        lhs_shape@.len() >= 2,
        rhs_shape@.len() >= 2,
    ensures
        r is Err <==> line_sizes_invalid(lhs_line_size, rhs_line_size, out_line_size),
        r is Err ==> r == Err::<MatmulProblem, FusedMatmulError>(FusedMatmulError::InvalidInput),
        r is Ok ==> r.unwrap()@ == problem_of(
            lhs_shape@,
            rhs_shape@,
            lhs_transposed,
            rhs_transposed,
            lhs_line_size,
            rhs_line_size,
            out_line_size,
        ),
{
    if out_line_size == 1 && (lhs_line_size > 1 || rhs_line_size > 1) {
        return Err(FusedMatmulError::InvalidInput);
    }

    let rank: usize = lhs_shape.len();
    let m: usize = lhs_shape[rank - 2];
    let k: usize = lhs_shape[rank - 1];
    let n: usize = rhs_shape[rhs_shape.len() - 1];

    Ok(MatmulProblem {
        m,
        n,
        k,
        batches: (
            vec_prefix(lhs_shape, rank - 2),
            vec_prefix(rhs_shape, rhs_shape.len() - 2),
        ),
        lhs_layout: if lhs_transposed {
            MatrixLayout::ColMajor
        } else {
            MatrixLayout::RowMajor
        },
        rhs_layout: if rhs_transposed {
            MatrixLayout::ColMajor
        } else {
            MatrixLayout::RowMajor
        },
        lhs_line_size,
        rhs_line_size,
        out_line_size,
    })
}

} // verus!
