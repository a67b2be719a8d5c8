//! The fused-matmul kernel runner: the unit the trace-execution framework
//! drives, which inspects the launch bindings, builds and validates the matmul
//! problem, and decides the concrete kernel launch. The kernel algorithms
//! themselves are external collaborators: the runner returns a fully decided
//! [`KernelLaunch`] and the caller performs the invocation, handing any launch
//! failure back through [`finish_launch`].

pub mod error;

use vstd::prelude::*;
use vstd::pervasive::unreached;

use crate::device::ComputeClient;
use crate::ir::{Arg, BinaryOpIr, BinaryOpIrView, FuseBlockConfig, FusePrecision, GlobalArgs,
    RefLayout};
use crate::layout::{check_layout, check_layout_spec, layout_of};
use crate::matmul::error::{FusedMatmulError, MatmulAvailabilityError, MatmulLaunchError};
use crate::problem::{build_problem, line_sizes_invalid, problem_of, MatmulProblem,
    MatmulProblemView};

verus! {

/// Choice of fused-matmul kernel strategy. Selection between the two happens
/// by choosing which unit to run, never by mutating a unit's tag.
#[derive(Clone, Copy, PartialEq, Eq, Structural, Debug)]
pub enum FusedMatmulSelector {
    /// Single-buffered pipelined kernel.
    Simple,
    /// Cyclic double-buffered pipelined kernel.
    DoubleBuffering,
}

impl Default for FusedMatmulSelector {
    /// The default strategy is the simple one.
    fn default() -> (r: Self)
        ensures
            r == FusedMatmulSelector::Simple,
    {
        FusedMatmulSelector::Simple
    }
}

/// The externally supplied kernel algorithm families this engine dispatches
/// to. Both build on an accelerated, tensor-core-class tile matmul.
#[derive(Clone, Copy, PartialEq, Eq, Structural, Debug)]
pub enum KernelAlgorithm {
    /// Single-buffered pipelined algorithm over accelerated tiles.
    Simple,
    /// Cyclic double-buffered pipelined algorithm over accelerated tiles.
    CyclicDoubleBuffering,
}

impl KernelAlgorithm {
    /// Whether the algorithm's tile strategy declares that it benefits from
    /// tensor-core-class acceleration. Both families here build on an
    /// accelerated tile matmul, so both declare it.
    pub open spec fn requires_tensor_cores_spec(self) -> bool {
        true
    }

    /// Capability query of the algorithm's tile strategy.
    pub fn requires_tensor_cores(&self) -> (b: bool)
        ensures
            b == self.requires_tensor_cores_spec(),
    {
        true
    }
}

impl FusedMatmulSelector {
    /// The kernel algorithm this selector maps to.
    pub open spec fn algorithm_spec(self) -> KernelAlgorithm {
        match self {
            FusedMatmulSelector::Simple => KernelAlgorithm::Simple,
            FusedMatmulSelector::DoubleBuffering => KernelAlgorithm::CyclicDoubleBuffering,
        }
    }

    /// The kernel algorithm this selector maps to.
    pub fn algorithm(&self) -> (a: KernelAlgorithm)
        ensures
            a == self.algorithm_spec(),
    {
        match self {
            FusedMatmulSelector::Simple => KernelAlgorithm::Simple,
            FusedMatmulSelector::DoubleBuffering => KernelAlgorithm::CyclicDoubleBuffering,
        }
    }
}

/// The closed choice of matmul element precisions the runner dispatches on.
#[derive(Clone, Copy, PartialEq, Eq, Structural, Debug)]
pub enum MatmulPrecision {
    /// 32-bit float.
    F32,
    /// Flexible 32-bit float: relaxed-precision compute, 32-bit storage.
    Flex32,
    /// 16-bit float.
    F16,
    /// 16-bit brain-float.
    BF16,
}

impl FusePrecision {
    /// The matmul element precision a supported output tag selects.
    pub open spec fn matmul_precision_spec(self) -> MatmulPrecision
        recommends
            self.is_matmul_supported(),
    {
        if self == FusePrecision::F32 {
            MatmulPrecision::F32
        } else if self == FusePrecision::Flex32 {
            MatmulPrecision::Flex32
        } else if self == FusePrecision::F16 {
            MatmulPrecision::F16
        } else {
            MatmulPrecision::BF16
        }
    }
}

/// The precision path a decided launch computes with.
#[derive(Clone, Copy, PartialEq, Eq, Structural, Debug)]
pub enum LaunchPrecision {
    /// Compute with exactly the declared element precision.
    Exact(MatmulPrecision),
    /// Compute in the reduced-precision tf32 mode while keeping 32-bit floats
    /// as the stored and accumulated element type.
    MixedTf32,
}

/// The precision path the dispatcher selects: a 32-bit float launch is
/// upgraded to reduced-precision compute when the algorithm benefits from
/// tensor cores and the device accelerates that mode; every other launch keeps
/// its declared precision.
pub open spec fn launch_precision_spec(
    algorithm: KernelAlgorithm,
    precision: MatmulPrecision,
    tf32_supported: bool,
) -> LaunchPrecision {
    if algorithm.requires_tensor_cores_spec() && precision == MatmulPrecision::F32
        && tf32_supported {
        LaunchPrecision::MixedTf32
    } else {
        LaunchPrecision::Exact(precision)
    }
}

/// A fully decided kernel launch: which algorithm to invoke, on which
/// precision path, for which problem, at which plane width. Performing the
/// launch belongs to the external kernel algorithm.
#[derive(Debug)]
pub struct KernelLaunch {
    /// The algorithm family to invoke.
    pub algorithm: KernelAlgorithm,
    /// The precision path to compute with.
    pub precision: LaunchPrecision,
    /// The problem to solve.
    pub problem: MatmulProblem,
    /// The plane width the device schedules with.
    pub plane_size: u32,
}

/// Abstract value of a [`KernelLaunch`].
pub struct KernelLaunchView {
    /// The algorithm family to invoke.
    pub algorithm: KernelAlgorithm,
    /// The precision path to compute with.
    pub precision: LaunchPrecision,
    /// The problem to solve.
    pub problem: MatmulProblemView,
    /// The plane width the device schedules with.
    pub plane_size: u32,
}

impl View for KernelLaunch {
    type V = KernelLaunchView;

    open spec fn view(&self) -> KernelLaunchView {
        KernelLaunchView {
            algorithm: self.algorithm,
            precision: self.precision,
            problem: self.problem@,
            plane_size: self.plane_size,
        }
    }
}

/// Kernel strategy dispatch: decide the concrete launch for a chosen
/// algorithm, element precision, problem, and plane width, applying the
/// tensor-core upgrade for 32-bit floats where the device supports it.
pub fn matmul_launch_kernel(
    client: &ComputeClient,
    algorithm: KernelAlgorithm,
    precision: MatmulPrecision,
    problem: MatmulProblem,
    plane_size: u32,
) -> (l: KernelLaunch)
    ensures
        l@ == (KernelLaunchView {
            algorithm,
            precision: launch_precision_spec(
                algorithm,
                precision,
                client.properties.tf32_supported,
            ),
            problem: problem@,
            plane_size,
        }),
{
    let is_f32 = match precision {
        MatmulPrecision::F32 => true,
        _ => false,
    };
    if algorithm.requires_tensor_cores() && is_f32 && client.tf32_supported() {
        KernelLaunch { algorithm, precision: LaunchPrecision::MixedTf32, problem, plane_size }
    } else {
        KernelLaunch { algorithm, precision: LaunchPrecision::Exact(precision), problem, plane_size }
    }
}

/// Wrap the externally observed outcome of a decided kernel launch: a launch
/// failure is wrapped as a recoverable error, never panicked on.
pub fn finish_launch(outcome: Result<(), MatmulLaunchError>) -> (r: Result<(), FusedMatmulError>)
    ensures
        outcome is Ok <==> r is Ok,
        outcome is Err ==> r == Err::<(), FusedMatmulError>(
            FusedMatmulError::LaunchError(outcome->Err_0),
        ),
{
    match outcome {
        Ok(_) => Ok(()),
        Err(err) => Err(FusedMatmulError::from(err)),
    }
}

/// The output line size a block configuration resolves to: the line size of
/// its concrete reference operand, or one for a virtual reference.
pub open spec fn resolved_out_line_size(
    inputs: GlobalArgs,
    outputs: GlobalArgs,
    config: FuseBlockConfig,
) -> u32 {
    match config.ref_layout {
        RefLayout::Concrete(arg) => match arg {
            Arg::Input(..) => inputs.line_size_spec(arg),
            Arg::Output(..) => outputs.line_size_spec(arg),
            Arg::Scalar(..) => 1,
        },
        RefLayout::Virtual => 1,
    }
}

/// The fused-matmul kernel runner: the addressable unit the trace-execution
/// framework drives. It holds the operand references of the recorded matmul,
/// the operation record itself, and the strategy tag set once at construction.
#[derive(Debug)]
pub struct FusedMatmul {
    /// Left-hand operand reference.
    pub lhs: Arg,
    /// Right-hand operand reference.
    pub rhs: Arg,
    /// Output operand reference; its precision tag drives dispatch.
    pub out: Arg,
    /// The recorded matmul operation.
    pub op: BinaryOpIr,
    /// The strategy this unit launches.
    pub selector: FusedMatmulSelector,
}

/// Abstract value of a [`FusedMatmul`].
pub struct FusedMatmulView {
    /// Left-hand operand reference.
    pub lhs: Arg,
    /// Right-hand operand reference.
    pub rhs: Arg,
    /// Output operand reference.
    pub out: Arg,
    /// The recorded matmul operation.
    pub op: BinaryOpIrView,
    /// The strategy this unit launches.
    pub selector: FusedMatmulSelector,
}

impl View for FusedMatmul {
    type V = FusedMatmulView;

    open spec fn view(&self) -> FusedMatmulView {
        FusedMatmulView {
            lhs: self.lhs,
            rhs: self.rhs,
            out: self.out,
            op: self.op@,
            selector: self.selector,
        }
    }
}

impl Clone for FusedMatmul {
    fn clone(&self) -> (r: Self)
        ensures
            r@ == self@,
    {
        FusedMatmul {
            lhs: self.lhs,
            rhs: self.rhs,
            out: self.out,
            op: self.op.clone(),
            selector: self.selector,
        }
    }
}

impl FusedMatmul {
    /// A runner unit over the given operands, operation record, and strategy.
    pub fn new(lhs: Arg, rhs: Arg, out: Arg, op: BinaryOpIr, selector: FusedMatmulSelector) -> (r:
        Self)
        ensures
            r@ == (FusedMatmulView { lhs, rhs, out, op: op@, selector }),
    {
        FusedMatmul { lhs, rhs, out, op, selector }
    }

    /// Vectorization-capability marker of the kernel-runner contract: this
    /// runner imposes no vectorization constraints beyond what the trace
    /// framework already computed for the launch bindings.
    pub fn imposes_vectorization_constraints(&self) -> (b: bool)
        ensures
            !b,
    {
        false
    }

    /// The launch bindings and block configuration are well-formed for this
    /// unit: both matrix operands resolve to bound tensors of equal rank at
    /// least two whose stride metadata matches their shapes, and the block's
    /// reference operand, if concrete, resolves on its own side.
    pub open spec fn bindings_wf(
        self,
        inputs: GlobalArgs,
        outputs: GlobalArgs,
        config: FuseBlockConfig,
    ) -> bool {
        &&& inputs.resolves(self.lhs)
        &&& inputs.resolves(self.rhs)
        &&& inputs.shape_spec(self.lhs).len() == inputs.strides_spec(self.lhs).len()
        &&& inputs.shape_spec(self.rhs).len() == inputs.strides_spec(self.rhs).len()
        &&& inputs.shape_spec(self.lhs).len() >= 2
        &&& inputs.shape_spec(self.rhs).len() == inputs.shape_spec(self.lhs).len()
        &&& match config.ref_layout {
            RefLayout::Concrete(arg) => match arg {
                Arg::Input(..) => inputs.resolves(arg),
                Arg::Output(..) => outputs.resolves(arg),
                Arg::Scalar(..) => false,
            },
            RefLayout::Virtual => true,
        }
    }

    /// The launch decision the runner makes on well-formed bindings, in order:
    /// an operand layout that needs a copy is invalid input; a unit output
    /// line beside a wider input line is invalid input; a device without a
    /// plane width cannot launch; otherwise the launch is decided for this
    /// unit's strategy with the tensor-core upgrade applied where supported.
    pub open spec fn decision_spec(
        self,
        client: ComputeClient,
        inputs: GlobalArgs,
        outputs: GlobalArgs,
        config: FuseBlockConfig,
        precision: MatmulPrecision,
    ) -> Result<KernelLaunchView, FusedMatmulError>
        recommends
            self.bindings_wf(inputs, outputs, config),
    {
        let lhs_strides = inputs.strides_spec(self.lhs);
        let rhs_strides = inputs.strides_spec(self.rhs);
        let lhs_line_size = inputs.line_size_spec(self.lhs);
        let rhs_line_size = inputs.line_size_spec(self.rhs);
        let out_line_size = resolved_out_line_size(inputs, outputs, config);
        if layout_of(lhs_strides) is HighlyPermuted || layout_of(rhs_strides) is HighlyPermuted {
            Err(FusedMatmulError::InvalidInput)
        } else if line_sizes_invalid(lhs_line_size, rhs_line_size, out_line_size) {
            Err(FusedMatmulError::InvalidInput)
        } else if client.properties.plane_size is None {
            Err(FusedMatmulError::LaunchError(
                MatmulLaunchError::Unavailable(MatmulAvailabilityError::PlaneDimUnknown),
            ))
        } else {
            Ok(
                KernelLaunchView {
                    algorithm: self.selector.algorithm_spec(),
                    precision: launch_precision_spec(
                        self.selector.algorithm_spec(),
                        precision,
                        client.properties.tf32_supported,
                    ),
                    problem: problem_of(
                        inputs.shape_spec(self.lhs),
                        inputs.shape_spec(self.rhs),
                        check_layout_spec(lhs_strides).1,
                        check_layout_spec(rhs_strides).1,
                        lhs_line_size,
                        rhs_line_size,
                        out_line_size,
                    ),
                    plane_size: client.properties.plane_size->0,
                },
            )
        }
    }

    /// Build, validate, and dispatch the fused matmul at one element
    /// precision: classify both operand layouts, reject any that needs a copy,
    /// resolve and validate the line sizes, build the problem, query the plane
    /// width, and decide the launch for this unit's strategy.
    pub fn matmul_fused(
        &self,
        client: &ComputeClient,
        inputs: &GlobalArgs,
        outputs: &GlobalArgs,
        config: &FuseBlockConfig,
        precision: MatmulPrecision,
    ) -> (r: Result<KernelLaunch, FusedMatmulError>)
        requires
            self.bindings_wf(*inputs, *outputs, *config),
        ensures
            (r is Ok) == (self.decision_spec(*client, *inputs, *outputs, *config, precision)
                is Ok),
            r is Ok ==> r->Ok_0@ == self.decision_spec(
                *client,
                *inputs,
                *outputs,
                *config,
                precision,
            )->Ok_0,
            r is Err ==> r->Err_0 == self.decision_spec(
                *client,
                *inputs,
                *outputs,
                *config,
                precision,
            )->Err_0,
    {
        let lhs_shape = inputs.shape(&self.lhs);
        let rhs_shape = inputs.shape(&self.rhs);
        let lhs_strides = inputs.strides(&self.lhs);
        let rhs_strides = inputs.strides(&self.rhs);

        let (lhs_make_contiguous, lhs_transposed) = check_layout(lhs_strides);
        let (rhs_make_contiguous, rhs_transposed) = check_layout(rhs_strides);

        if lhs_make_contiguous || rhs_make_contiguous {
            return Err(FusedMatmulError::InvalidInput);
        }

        let lhs_line_size = inputs.line_size(&self.lhs);
        let rhs_line_size = inputs.line_size(&self.rhs);
        let out_line_size = match config.ref_layout {
            RefLayout::Concrete(arg) => match arg {
                Arg::Input(..) => inputs.line_size(&arg),
                Arg::Output(..) => outputs.line_size(&arg),
                Arg::Scalar(..) => unreached(),
            },
            RefLayout::Virtual => 1,
        };

        let problem = match build_problem(
            lhs_shape,
            rhs_shape,
            lhs_transposed,
            rhs_transposed,
            lhs_line_size,
            rhs_line_size,
            out_line_size,
        ) {
            Ok(problem) => problem,
            Err(err) => {
                return Err(err);
            },
        };

        let plane_size = match client.defined_plane_size() {
            Some(val) => val,
            None => {
                return Err(
                    FusedMatmulError::LaunchError(
                        MatmulLaunchError::Unavailable(MatmulAvailabilityError::PlaneDimUnknown),
                    ),
                );
            },
        };

        Ok(matmul_launch_kernel(client, self.selector.algorithm(), precision, problem, plane_size))
    }

    /// The kernel-runner contract: branch on the output operand's declared
    /// precision and dispatch the fused matmul with the first block's
    /// configuration. An output precision outside the supported four is a
    /// contract violation the caller must never hand in.
    pub fn run(
        &self,
        client: &ComputeClient,
        inputs: &GlobalArgs,
        outputs: &GlobalArgs,
        configs: &Vec<FuseBlockConfig>,
    ) -> (r: Result<KernelLaunch, FusedMatmulError>)
        requires
            configs@.len() > 0,
            self.out.precision_spec().is_matmul_supported(),
            self.bindings_wf(*inputs, *outputs, configs@[0]),
        ensures
            (r is Ok) == (self.run_decision_spec(*client, *inputs, *outputs, configs@[0]) is Ok),
            r is Ok ==> r->Ok_0@ == self.run_decision_spec(
                *client,
                *inputs,
                *outputs,
                configs@[0],
            )->Ok_0,
            r is Err ==> r->Err_0 == self.run_decision_spec(
                *client,
                *inputs,
                *outputs,
                configs@[0],
            )->Err_0,
    {
        match self.out.precision() {
            FusePrecision::F32 => self.matmul_fused(
                client,
                inputs,
                outputs,
                &configs[0],
                MatmulPrecision::F32,
            ),
            FusePrecision::Flex32 => self.matmul_fused(
                client,
                inputs,
                outputs,
                &configs[0],
                MatmulPrecision::Flex32,
            ),
            FusePrecision::F16 => self.matmul_fused(
                client,
                inputs,
                outputs,
                &configs[0],
                MatmulPrecision::F16,
            ),
            FusePrecision::BF16 => self.matmul_fused(
                client,
                inputs,
                outputs,
                &configs[0],
                MatmulPrecision::BF16,
            ),
            _ => unreached(),
        }
    }

    /// The decision [`FusedMatmul::run`] makes: the dispatch decision at the
    /// element precision the output operand's tag selects.
    pub open spec fn run_decision_spec(
        self,
        client: ComputeClient,
        inputs: GlobalArgs,
        outputs: GlobalArgs,
        config: FuseBlockConfig,
    ) -> Result<KernelLaunchView, FusedMatmulError>
        recommends
            self.out.precision_spec().is_matmul_supported(),
            self.bindings_wf(inputs, outputs, config),
    {
        self.decision_spec(
            client,
            inputs,
            outputs,
            config,
            self.out.precision_spec().matmul_precision_spec(),
        )
    }
}

/// Law: the reduced-precision upgrade only ever applies to a 32-bit float
/// launch, and only when the device supports the mode; every other declared
/// precision dispatches exactly as declared. The upgraded launch still stores
/// and accumulates 32-bit floats, so the declared element type is preserved.
pub proof fn lemma_upgrade_preserves_declared_precision(
    algorithm: KernelAlgorithm,
    precision: MatmulPrecision,
    tf32_supported: bool,
)
    ensures
        launch_precision_spec(algorithm, precision, tf32_supported) == LaunchPrecision::MixedTf32
            ==> precision == MatmulPrecision::F32 && tf32_supported,
        precision != MatmulPrecision::F32 ==> launch_precision_spec(
            algorithm,
            precision,
            tf32_supported,
        ) == LaunchPrecision::Exact(precision),
{
}

/// For every operand pair where either operand's layout classifies as highly
/// permuted, the fused path reports invalid input and decides no kernel
/// launch.
pub proof fn lemma_highly_permuted_rejected(
    m: FusedMatmul,
    client: ComputeClient,
    inputs: GlobalArgs,
    outputs: GlobalArgs,
    config: FuseBlockConfig,
    precision: MatmulPrecision,
)
    requires
        layout_of(inputs.strides_spec(m.lhs)) is HighlyPermuted || layout_of(
            inputs.strides_spec(m.rhs),
        ) is HighlyPermuted,
    ensures
        m.decision_spec(client, inputs, outputs, config, precision) == Err::<
            KernelLaunchView,
            FusedMatmulError,
        >(FusedMatmulError::InvalidInput),
{
}

/// When neither operand's layout needs a copy, the line sizes are compatible,
/// and the device reports a plane width, the fused path owes a launch: it
/// decides the launch for the unit's strategy over the problem the shapes
/// describe, and reports no error.
pub proof fn lemma_fused_launch_decided(
    m: FusedMatmul,
    client: ComputeClient,
    inputs: GlobalArgs,
    outputs: GlobalArgs,
    config: FuseBlockConfig,
    precision: MatmulPrecision,
)
    requires
        m.bindings_wf(inputs, outputs, config),
        !(layout_of(inputs.strides_spec(m.lhs)) is HighlyPermuted),
        !(layout_of(inputs.strides_spec(m.rhs)) is HighlyPermuted),
        !line_sizes_invalid(
            inputs.line_size_spec(m.lhs),
            inputs.line_size_spec(m.rhs),
            resolved_out_line_size(inputs, outputs, config),
        ),
        client.properties.plane_size is Some,
    ensures
        m.decision_spec(client, inputs, outputs, config, precision) is Ok,
        m.decision_spec(client, inputs, outputs, config, precision)->Ok_0.problem == problem_of(
            inputs.shape_spec(m.lhs),
            inputs.shape_spec(m.rhs),
            check_layout_spec(inputs.strides_spec(m.lhs)).1,
            check_layout_spec(inputs.strides_spec(m.rhs)).1,
            inputs.line_size_spec(m.lhs),
            inputs.line_size_spec(m.rhs),
            resolved_out_line_size(inputs, outputs, config),
        ),
        m.decision_spec(client, inputs, outputs, config, precision)->Ok_0.algorithm
            == m.selector.algorithm_spec(),
        m.decision_spec(client, inputs, outputs, config, precision)->Ok_0.plane_size
            == client.properties.plane_size->0,
{
}

/// Exactly the 32-bit float, flexible 32-bit float, 16-bit float, and 16-bit
/// brain-float tags are accepted by the runner's dispatch; every other
/// precision tag is excluded by its contract and can never reach a launch.
pub proof fn lemma_supported_precision_tags(p: FusePrecision)
    ensures
        p.is_matmul_supported() <==> (p == FusePrecision::F32 || p == FusePrecision::Flex32 || p
            == FusePrecision::F16 || p == FusePrecision::BF16),
{
}

} // verus!
