//! Data model of a captured trace, as the trace-execution framework presents
//! it to a kernel runner: operand references with their precisions, the matmul
//! operation record, the resources a trace declares, and the launch-time
//! bindings (shape, strides, vector width) of every bound tensor.

use vstd::prelude::*;

use crate::util::copy_vec;

verus! {

/// Numeric precision tag carried by every operand in a captured trace.
#[derive(Clone, Copy, PartialEq, Eq, Structural, Debug)]
pub enum FusePrecision {
    F32,
    Flex32,
    F16,
    BF16,
    I64,
    I32,
    I16,
    I8,
    U64,
    U32,
    U16,
    U8,
    Bool,
}

impl FusePrecision {
    /// The fused-matmul runner supports exactly these output precisions; any
    /// other tag on the output operand indicates a mis-wired trace, a contract
    /// violation the runner must never be handed.
    pub open spec fn is_matmul_supported(self) -> bool {
        ||| self == FusePrecision::F32
        ||| self == FusePrecision::Flex32
        ||| self == FusePrecision::F16
        ||| self == FusePrecision::BF16
    }

    /// Whether the fused-matmul runner supports this output precision.
    pub fn matmul_supported(&self) -> (b: bool)
        ensures
            b == self.is_matmul_supported(),
    {
        match self {
            FusePrecision::F32 => true,
            FusePrecision::Flex32 => true,
            FusePrecision::F16 => true,
            FusePrecision::BF16 => true,
            _ => false,
        }
    }
}

/// Reference to an operand slot within a captured trace, carrying the slot's
/// position among the trace's inputs or outputs and its precision. The trace
/// owns the slot; the fusion engine only reads the reference.
#[derive(Clone, Copy, PartialEq, Eq, Structural, Debug)]
pub enum Arg {
    /// An input tensor slot.
    Input(u32, FusePrecision),
    /// An output tensor slot.
    Output(u32, FusePrecision),
    /// A scalar operand; it names no tensor slot.
    Scalar(u32, FusePrecision),
}

impl Arg {
    /// The precision tag this operand carries.
    pub open spec fn precision_spec(self) -> FusePrecision {
        match self {
            Arg::Input(_, p) => p,
            Arg::Output(_, p) => p,
            Arg::Scalar(_, p) => p,
        }
    }

    /// The precision tag this operand carries.
    pub fn precision(&self) -> (p: FusePrecision)
        ensures
            p == self.precision_spec(),
    {
        match self {
            Arg::Input(_, p) => *p,
            Arg::Output(_, p) => *p,
            Arg::Scalar(_, p) => *p,
        }
    }

    /// The slot position this operand names.
    pub open spec fn slot_spec(self) -> u32 {
        match self {
            Arg::Input(i, _) => i,
            Arg::Output(i, _) => i,
            Arg::Scalar(i, _) => i,
        }
    }

    /// The slot position this operand names.
    pub fn slot(&self) -> (i: u32)
        ensures
            i == self.slot_spec(),
    {
        match self {
            Arg::Input(i, _) => *i,
            Arg::Output(i, _) => *i,
            Arg::Scalar(i, _) => *i,
        }
    }

    /// Whether this operand names an input tensor slot.
    pub open spec fn is_input(self) -> bool {
        self is Input
    }

    /// Whether this operand names an output tensor slot.
    pub open spec fn is_output(self) -> bool {
        self is Output
    }
}

/// Description of one tensor in the operation intermediate representation.
#[derive(Debug)]
pub struct TensorIr {
    /// Identifier of the tensor within the larger trace context.
    pub id: u64,
    /// Logical shape of the tensor.
    pub shape: Vec<usize>,
}

/// Abstract value of a [`TensorIr`].
pub struct TensorIrView {
    /// Identifier of the tensor within the larger trace context.
    pub id: u64,
    /// Logical shape of the tensor.
    pub shape: Seq<usize>,
}

impl View for TensorIr {
    type V = TensorIrView;

    open spec fn view(&self) -> TensorIrView {
        TensorIrView { id: self.id, shape: self.shape@ }
    }
}

impl Clone for TensorIr {
    fn clone(&self) -> (r: Self)
        ensures
            r@ == self@,
    {
        TensorIr { id: self.id, shape: copy_vec(&self.shape) }
    }
}

/// The recorded binary operation a fused matmul stems from: the two matrix
/// operands and the tensor receiving the product.
#[derive(Debug)]
pub struct BinaryOpIr {
    /// Left-hand matrix operand.
    pub lhs: TensorIr,
    /// Right-hand matrix operand.
    pub rhs: TensorIr,
    /// Tensor receiving the result.
    pub out: TensorIr,
}

/// Abstract value of a [`BinaryOpIr`].
pub struct BinaryOpIrView {
    /// Left-hand matrix operand.
    pub lhs: TensorIrView,
    /// Right-hand matrix operand.
    pub rhs: TensorIrView,
    /// Tensor receiving the result.
    pub out: TensorIrView,
}

impl View for BinaryOpIr {
    type V = BinaryOpIrView;

    open spec fn view(&self) -> BinaryOpIrView {
        BinaryOpIrView { lhs: self.lhs@, rhs: self.rhs@, out: self.out@ }
    }
}

impl Clone for BinaryOpIr {
    fn clone(&self) -> (r: Self)
        ensures
            r@ == self@,
    {
        BinaryOpIr { lhs: self.lhs.clone(), rhs: self.rhs.clone(), out: self.out.clone() }
    }
}

/// The tensor slots a captured trace declares as its inputs and outputs.
#[derive(Debug)]
pub struct FuseResources {
    /// Input slots, in trace order.
    pub inputs: Vec<Arg>,
    /// Output slots added by fusion, in trace order.
    pub outputs: Vec<Arg>,
}

/// Abstract value of [`FuseResources`].
pub struct FuseResourcesView {
    /// Input slots, in trace order.
    pub inputs: Seq<Arg>,
    /// Output slots added by fusion, in trace order.
    pub outputs: Seq<Arg>,
}

impl View for FuseResources {
    type V = FuseResourcesView;

    open spec fn view(&self) -> FuseResourcesView {
        FuseResourcesView { inputs: self.inputs@, outputs: self.outputs@ }
    }
}

impl Clone for FuseResources {
    fn clone(&self) -> (r: Self)
        ensures
            r@ == self@,
    {
        FuseResources { inputs: copy_vec(&self.inputs), outputs: copy_vec(&self.outputs) }
    }
}

/// A captured sequence of fused operations together with its resource
/// bindings. The operation body belongs to the trace-execution framework,
/// which replays it through a kernel runner; this engine reads only the
/// declared resources and otherwise carries the trace as a value.
#[derive(Debug)]
pub struct FuseTrace {
    /// The tensor slots the trace declares.
    pub resources: FuseResources,
}

/// Abstract value of a [`FuseTrace`].
pub struct FuseTraceView {
    /// The tensor slots the trace declares.
    pub resources: FuseResourcesView,
}

impl View for FuseTrace {
    type V = FuseTraceView;

    open spec fn view(&self) -> FuseTraceView {
        FuseTraceView { resources: self.resources@ }
    }
}

impl Clone for FuseTrace {
    fn clone(&self) -> (r: Self)
        ensures
            r@ == self@,
    {
        FuseTrace { resources: self.resources.clone() }
    }
}

/// Launch-time metadata of one bound tensor, as the trace framework hands it
/// to a kernel runner: shape, strides, and the vector (line) width chosen for
/// the launch.
#[derive(Debug)]
pub struct TensorBinding {
    /// Shape of the bound tensor.
    pub shape: Vec<usize>,
    /// Strides of the bound tensor.
    pub strides: Vec<usize>,
    /// Vector width the launch reads or writes this tensor with.
    pub line_size: u32,
}

/// One side of the launch bindings — the input tensors or the output tensors —
/// indexed by operand slot.
#[derive(Debug)]
pub struct GlobalArgs {
    /// Bound tensors, in slot order.
    pub tensors: Vec<TensorBinding>,
}

impl GlobalArgs {
    /// Whether an operand reference names a slot these bindings hold.
    pub open spec fn resolves(self, arg: Arg) -> bool {
        arg.slot_spec() < self.tensors@.len()
    }

    /// The shape bound to an operand's slot.
    pub open spec fn shape_spec(self, arg: Arg) -> Seq<usize> {
        self.tensors@[arg.slot_spec() as int].shape@
    }

    /// The strides bound to an operand's slot.
    pub open spec fn strides_spec(self, arg: Arg) -> Seq<usize> {
        self.tensors@[arg.slot_spec() as int].strides@
    }

    /// The vector width bound to an operand's slot.
    pub open spec fn line_size_spec(self, arg: Arg) -> u32 {
        self.tensors@[arg.slot_spec() as int].line_size
    }

    /// The shape bound to an operand's slot.
    pub fn shape<'a>(&'a self, arg: &Arg) -> (s: &'a Vec<usize>)
        requires
            self.resolves(*arg),
        ensures
            s@ == self.shape_spec(*arg),
    {
        &self.tensors[arg.slot() as usize].shape
    }

    /// The strides bound to an operand's slot.
    pub fn strides<'a>(&'a self, arg: &Arg) -> (s: &'a Vec<usize>)
        requires
            self.resolves(*arg),
        ensures
            s@ == self.strides_spec(*arg),
    {
        &self.tensors[arg.slot() as usize].strides
    }

    /// The vector width bound to an operand's slot.
    pub fn line_size(&self, arg: &Arg) -> (l: u32)
        requires
            self.resolves(*arg),
        ensures
            l == self.line_size_spec(*arg),
    {
        self.tensors[arg.slot() as usize].line_size
    }
}

/// How a fused block resolves the reference tensor that fixes the iteration
/// space and the output vector width.
#[derive(Clone, Copy, PartialEq, Eq, Structural, Debug)]
pub enum RefLayout {
    /// The reference is a concrete input or output operand.
    Concrete(Arg),
    /// The reference is virtual: the block iterates scalar-per-lane, so the
    /// resolved line size is one.
    Virtual,
}

/// Configuration of one fused block, as the trace framework hands it to the
/// kernel runner alongside the launch bindings.
#[derive(Clone, Copy, PartialEq, Eq, Structural, Debug)]
pub struct FuseBlockConfig {
    /// How the block resolves its reference tensor.
    pub ref_layout: RefLayout,
}

} // verus!
