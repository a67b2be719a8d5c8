//! Classification of an operand's memory layout from its strides.
//!
//! A batched-matrix operand is usable by the fused kernels only when its
//! strides are contiguous or at most mildly permuted (trailing two dimensions
//! transposed, or batch dimensions reordered). A highly permuted operand would
//! need a materializing copy, which the fused path never inserts on its own.

use vstd::prelude::*;

verus! {

/// Layout of a batched-matrix tensor, i.e. a tensor read as a batch of
/// two-dimensional matrices occupying the trailing two dimensions.
#[derive(Clone, Copy, PartialEq, Eq, Structural, Debug)]
pub enum MatrixBatchLayout {
    /// Memory is wholly contiguous, with row-major layout.
    Contiguous,
    /// Permutations happened, but ones the kernels can absorb.
    MildlyPermuted {
        /// The trailing two dimensions are inverted.
        transposed: bool,
        /// Batch dimensions are reordered or broadcasted among themselves.
        batch_swap: bool,
    },
    /// Permutations mix batch dimensions with the trailing two dimensions,
    /// or a matrix dimension is broadcasted: a copy would be required.
    HighlyPermuted,
}

/// A batch stride sits below one of the matrix strides, or a matrix dimension
/// is broadcasted (stride zero): the matrix rows or columns are not laid out
/// above all batch dimensions, so no kernel can walk them without a copy.
pub open spec fn strides_highly_permuted(s: Seq<usize>) -> bool
    recommends
        s.len() >= 2,
{
    let row = s[s.len() - 2];
    let col = s[s.len() - 1];
    ||| row == 0
    ||| col == 0
    ||| exists|i: int| 0 <= i < s.len() - 2 && s[i] != 0 && (s[i] < row || s[i] < col)
}

/// The trailing two strides are inverted: the matrix is stored column-major.
pub open spec fn strides_transposed(s: Seq<usize>) -> bool
    recommends
        s.len() >= 2,
{
    s[s.len() - 2] < s[s.len() - 1]
}

/// Some batch dimension is broadcasted (stride zero) or sits below the
/// dimension to its right, so the batches are not visited in storage order.
pub open spec fn strides_batch_swapped(s: Seq<usize>) -> bool
    recommends
        s.len() >= 2,
{
    exists|i: int| 0 <= i < s.len() - 2 && (#[trigger] s[i] == 0 || s[i] < s[i + 1])
}

/// The layout class of a stride sequence: rank zero or one is contiguous; a
/// broadcasted matrix dimension or a batch stride below a matrix stride is
/// highly permuted; otherwise a transposition or batch reordering is mild,
/// and strictly descending strides are contiguous.
pub open spec fn layout_of(s: Seq<usize>) -> MatrixBatchLayout {
    if s.len() <= 1 {
        MatrixBatchLayout::Contiguous
    } else if strides_highly_permuted(s) {
        MatrixBatchLayout::HighlyPermuted
    } else if strides_transposed(s) || strides_batch_swapped(s) {
        MatrixBatchLayout::MildlyPermuted {
            transposed: strides_transposed(s),
            batch_swap: strides_batch_swapped(s),
        }
    } else {
        MatrixBatchLayout::Contiguous
    }
}

/// Relies on `cubecl_linalg::tensor::matrix_batch_layout`: it classifies a
/// stride sequence as contiguous, mildly permuted (reporting whether the
/// trailing two dimensions are transposed and whether batch dimensions are
/// swapped or broadcasted), or highly permuted, exactly as `layout_of` states.
#[verifier::external_body]
fn matrix_batch_layout_extern(strides: &Vec<usize>) -> (r: MatrixBatchLayout)
    ensures
        r == layout_of(strides@),
{
    match cubecl_linalg::tensor::matrix_batch_layout(strides) {
        cubecl_linalg::tensor::MatrixBatchLayout::Contiguous => MatrixBatchLayout::Contiguous,
        cubecl_linalg::tensor::MatrixBatchLayout::MildlyPermuted { transposed, batch_swap } => {
            MatrixBatchLayout::MildlyPermuted { transposed, batch_swap }
        },
        cubecl_linalg::tensor::MatrixBatchLayout::HighlyPermuted => {
            MatrixBatchLayout::HighlyPermuted
        },
    }
}

/// The layout class of an operand's strides.
pub fn matrix_batch_layout(strides: &Vec<usize>) -> (r: MatrixBatchLayout)
    ensures
        r == layout_of(strides@),
{
    matrix_batch_layout_extern(strides)
}

/// In a non-increasing stride sequence every stride dominates every later one.
proof fn lemma_non_increasing_chain(s: Seq<usize>, i: int, j: int)
    requires
        forall|k: int| 0 <= k < s.len() - 1 ==> #[trigger] s[k] >= s[k + 1],
        0 <= i <= j < s.len(),
    ensures
        s[i] >= s[j],
    decreases j - i,
{
    if i < j {
        lemma_non_increasing_chain(s, i + 1, j);
    }
}

/// Law: non-increasing strides that end positive — the canonical row-major
/// arrangement a contiguous tensor is stored with — classify as contiguous.
pub proof fn lemma_non_increasing_strides_contiguous(s: Seq<usize>)
    requires
        s.len() >= 2,
        forall|k: int| 0 <= k < s.len() - 1 ==> #[trigger] s[k] >= s[k + 1],
        s[s.len() - 1] > 0,
    ensures
        layout_of(s) == MatrixBatchLayout::Contiguous,
{
    assert forall|i: int| 0 <= i < s.len() implies #[trigger] s[i] >= s[s.len() - 1] by {
        lemma_non_increasing_chain(s, i, s.len() - 1);
    }
    assert forall|i: int| 0 <= i < s.len() - 2 implies #[trigger] s[i] >= s[s.len() - 2] by {
        lemma_non_increasing_chain(s, i, s.len() - 2);
    }
    assert(!strides_highly_permuted(s));
    assert(!strides_transposed(s));
    assert(!strides_batch_swapped(s));
}

/// Law: an operand stored column-major — trailing two strides inverted, both
/// positive, every batch stride non-increasing and at least the column
/// stride — is only mildly permuted: it needs no copy, and only the
/// transposition is reported.
pub proof fn lemma_transposed_strides_mildly_permuted(s: Seq<usize>)
    requires
        s.len() >= 2,
        s[s.len() - 2] < s[s.len() - 1],
        s[s.len() - 2] > 0,
        forall|k: int| 0 <= k < s.len() - 2 ==> #[trigger] s[k] >= s[s.len() - 1],
        forall|k: int| 0 <= k < s.len() - 2 ==> #[trigger] s[k] >= s[k + 1],
    ensures
        layout_of(s) == (MatrixBatchLayout::MildlyPermuted { transposed: true, batch_swap: false }),
        check_layout_spec(s) == (false, true),
{
    assert(!strides_highly_permuted(s));
    assert(!strides_batch_swapped(s));
}

/// What layout validation reads off a classification: whether the operand
/// needs a materializing copy, and whether it is transposed.
pub open spec fn check_layout_spec(s: Seq<usize>) -> (bool, bool) {
    match layout_of(s) {
        MatrixBatchLayout::Contiguous => (false, false),
        MatrixBatchLayout::MildlyPermuted { transposed, batch_swap } => (false, transposed),
        MatrixBatchLayout::HighlyPermuted => (true, false),
    }
}

/// Validate one operand's layout: `(needs_copy, transposed)`.
pub fn check_layout(strides: &Vec<usize>) -> (r: (bool, bool))
    ensures
        r == check_layout_spec(strides@),
{
    match matrix_batch_layout(strides) {
        MatrixBatchLayout::Contiguous => (false, false),
        MatrixBatchLayout::MildlyPermuted { transposed, batch_swap: _ } => (false, transposed),
        MatrixBatchLayout::HighlyPermuted => (true, false),
    }
}

} // verus!
