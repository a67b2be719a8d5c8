//! The optimization coordinator: the top-level object holding the fused and
//! fallback trace captures, the two strategy units, and the orchestration
//! logic that runs fused-with-fallback or hands strategy choice to an
//! autotuner. Running a trace is the trace-execution framework's work and
//! running the unfused operation is the captured callable's; the coordinator
//! decides, and its caller performs.

use vstd::prelude::*;

use crate::device::{ComputeClient, Device};
use crate::ir::{FuseTrace, FuseTraceView};
use crate::matmul::error::FusedMatmulError;
use crate::matmul::{FusedMatmul, FusedMatmulSelector, FusedMatmulView};

verus! {

/// The externally supplied unfused operation captured at the start of every
/// execute call: the original matmul, addressed by its position in the larger
/// trace. The callable itself lives with the caller; the coordinator tracks
/// which position was captured and whether capture happened.
#[derive(Clone, Copy, PartialEq, Eq, Structural, Debug)]
pub struct FallbackOperation {
    /// Position of the fused subgraph's matmul in the larger trace.
    pub index: usize,
}

/// Error surfaced by the trace-execution framework when a run fails: the
/// kernel runner's own failure, carried through the framework.
#[derive(Clone, Copy, PartialEq, Eq, Structural, Debug)]
pub enum TraceError<E> {
    /// The kernel runner rejected or failed the run.
    Runner(E),
}

/// An output tensor recorded for fused-vs-fallback correctness diffing: its
/// identifier in the trace context, its shape, and its memory handle.
#[derive(Clone, PartialEq, Eq, Debug)]
pub struct RecordedHandle {
    /// Identifier of the tensor within the trace context.
    pub id: u64,
    /// Shape of the recorded tensor.
    pub shape: Vec<usize>,
    /// The memory handle holding the tensor's data.
    pub handle: u64,
}

/// The execution-output record of one strategy run: either unchecked, or
/// carrying the output handles recorded for correctness cross-checks.
#[derive(Debug)]
pub enum TuneOutput {
    /// No correctness checking: nothing is recorded.
    UnChecked,
    /// Correctness-check mode: the recorded output handles.
    Checked {
        /// The recorded output tensors.
        handles: Vec<RecordedHandle>,
    },
}

/// Abstract value of a [`TuneOutput`].
pub enum TuneOutputView {
    /// No correctness checking: nothing is recorded.
    UnChecked,
    /// Correctness-check mode: the recorded output handles.
    Checked {
        /// The recorded output tensors.
        handles: Seq<RecordedHandle>,
    },
}

impl View for TuneOutput {
    type V = TuneOutputView;

    open spec fn view(&self) -> TuneOutputView {
        match self {
            TuneOutput::UnChecked => TuneOutputView::UnChecked,
            TuneOutput::Checked { handles } => TuneOutputView::Checked { handles: handles@ },
        }
    }
}

impl TuneOutputView {
    /// Combination of two execution-output records: the recorded handles are
    /// concatenated, and the result is checked when either side is.
    pub open spec fn merged(self, other: TuneOutputView) -> TuneOutputView {
        match (self, other) {
            (TuneOutputView::UnChecked, TuneOutputView::UnChecked) => TuneOutputView::UnChecked,
            (TuneOutputView::Checked { handles }, TuneOutputView::UnChecked) => {
                TuneOutputView::Checked { handles }
            },
            (TuneOutputView::UnChecked, TuneOutputView::Checked { handles }) => {
                TuneOutputView::Checked { handles }
            },
            (
                TuneOutputView::Checked { handles: left },
                TuneOutputView::Checked { handles: right },
            ) => TuneOutputView::Checked { handles: left + right },
        }
    }
}

impl TuneOutput {
    /// Merge another execution-output record into this one.
    pub fn merge(self, other: TuneOutput) -> (r: TuneOutput)
        ensures
            r@ == self@.merged(other@),
    {
        match (self, other) {
            (TuneOutput::UnChecked, TuneOutput::UnChecked) => TuneOutput::UnChecked,
            (TuneOutput::Checked { handles }, TuneOutput::UnChecked) => {
                TuneOutput::Checked { handles }
            },
            (TuneOutput::UnChecked, TuneOutput::Checked { handles }) => {
                TuneOutput::Checked { handles }
            },
            (TuneOutput::Checked { handles: left }, TuneOutput::Checked { handles: right }) => {
                let mut combined = left;
                let mut right = right;
                combined.append(&mut right);
                TuneOutput::Checked { handles: combined }
            },
        }
    }
}

/// A request to the trace-execution framework: run this trace with this unit
/// as the kernel runner.
#[derive(Debug)]
pub struct TraceRunRequest {
    /// The trace to run.
    pub trace: FuseTrace,
    /// The unit to drive as kernel runner.
    pub runner: FusedMatmul,
}

/// Abstract value of a [`TraceRunRequest`].
pub struct TraceRunRequestView {
    /// The trace to run.
    pub trace: FuseTraceView,
    /// The unit to drive as kernel runner.
    pub runner: FusedMatmulView,
}

impl View for TraceRunRequest {
    type V = TraceRunRequestView;

    open spec fn view(&self) -> TraceRunRequestView {
        TraceRunRequestView { trace: self.trace@, runner: self.runner@ }
    }
}

/// The plan of one fallback execution: run the captured unfused operation,
/// record the matmul's output tensor first when correctness checks are on,
/// then run the fallback trace through the elementwise-fusion runner.
#[derive(Debug)]
pub struct FallbackPlan {
    /// The captured unfused operation to run first.
    pub operation: FallbackOperation,
    /// The identifier of the tensor whose shape and handle must be recorded
    /// before the elementwise pass, when correctness checks are enabled.
    pub check_output: Option<u64>,
    /// The trace to run through the elementwise-fusion runner afterwards.
    pub trace: FuseTrace,
}

/// What the caller of an execute call must drive next.
#[derive(Clone, Copy, PartialEq, Eq, Structural, Debug)]
pub enum ExecuteAction {
    /// Strategy choice belongs to the autotuner, which itself calls the
    /// per-strategy execution entry points to measure and pick a winner.
    DelegateToAutotuner,
    /// Attempt the fused trace with the simple-strategy unit, then consult
    /// the follow-up decision with the attempt's outcome.
    TryFused,
}

/// What the non-autotuned execute path owes once the fused attempt's outcome
/// is known.
#[derive(Clone, Copy, PartialEq, Eq, Structural, Debug)]
pub enum FollowUp {
    /// The fused attempt produced the output; nothing is left to run.
    Done,
    /// The fused attempt failed recoverably; run the fallback plan.
    RunFallback,
}

/// The follow-up the non-autotuned execute path owes for a fused outcome:
/// every recoverable error is converted into a fallback run, never surfaced
/// to the caller of execute.
pub open spec fn follow_up_of(
    outcome: Result<TuneOutput, TraceError<FusedMatmulError>>,
) -> FollowUp {
    if outcome is Err {
        FollowUp::RunFallback
    } else {
        FollowUp::Done
    }
}

/// The persistable snapshot of an optimization: everything but the runtime
/// bindings (client and device handles) and the call-scoped fallback
/// operation, which are rebound or recaptured after a restore.
#[derive(Debug)]
pub struct MatmulOptimizationState {
    /// The fused trace capture.
    pub trace: FuseTrace,
    /// The fallback trace capture.
    pub trace_fallback: FuseTrace,
    /// The simple-strategy unit.
    pub matmul_simple: FusedMatmul,
    /// The double-buffering-strategy unit.
    pub matmul_double_buffering: FusedMatmul,
    /// Number of operations fused.
    pub len: usize,
}

/// Abstract value of a [`MatmulOptimizationState`].
pub struct MatmulOptimizationStateView {
    /// The fused trace capture.
    pub trace: FuseTraceView,
    /// The fallback trace capture.
    pub trace_fallback: FuseTraceView,
    /// The simple-strategy unit.
    pub matmul_simple: FusedMatmulView,
    /// The double-buffering-strategy unit.
    pub matmul_double_buffering: FusedMatmulView,
    /// Number of operations fused.
    pub len: usize,
}

impl View for MatmulOptimizationState {
    type V = MatmulOptimizationStateView;

    open spec fn view(&self) -> MatmulOptimizationStateView {
        MatmulOptimizationStateView {
            trace: self.trace@,
            trace_fallback: self.trace_fallback@,
            matmul_simple: self.matmul_simple@,
            matmul_double_buffering: self.matmul_double_buffering@,
            len: self.len,
        }
    }
}

/// Coordinator of one fused matmul optimization: owns the fused and fallback
/// trace captures, the two strategy units cloned from one template, the
/// device binding, and the fallback operation captured lazily at the start of
/// each execute call. Used by one logical execution stream at a time.
#[derive(Debug)]
pub struct MatmulOptimization {
    /// The fused trace capture.
    pub trace: FuseTrace,
    /// The fallback trace capture.
    pub trace_fallback: FuseTrace,
    /// Client bound to the device's command stream.
    pub client: ComputeClient,
    /// The device this optimization runs on.
    pub device: Device,
    /// Number of operations fused.
    pub len: usize,
    /// The simple-strategy unit.
    pub matmul_simple: FusedMatmul,
    /// The double-buffering-strategy unit.
    pub matmul_double_buffering: FusedMatmul,
    /// The unfused operation captured for the current execute call; reset at
    /// the start of every call, never reused across calls, and unset after a
    /// restore.
    pub fallback: Option<FallbackOperation>,
}

/// Abstract value of a [`MatmulOptimization`].
pub struct MatmulOptimizationView {
    /// The fused trace capture.
    pub trace: FuseTraceView,
    /// The fallback trace capture.
    pub trace_fallback: FuseTraceView,
    /// Client bound to the device's command stream.
    pub client: ComputeClient,
    /// The device this optimization runs on.
    pub device: Device,
    /// Number of operations fused.
    pub len: usize,
    /// The simple-strategy unit.
    pub matmul_simple: FusedMatmulView,
    /// The double-buffering-strategy unit.
    pub matmul_double_buffering: FusedMatmulView,
    /// The unfused operation captured for the current execute call.
    pub fallback: Option<FallbackOperation>,
}

impl View for MatmulOptimization {
    type V = MatmulOptimizationView;

    open spec fn view(&self) -> MatmulOptimizationView {
        MatmulOptimizationView {
            trace: self.trace@,
            trace_fallback: self.trace_fallback@,
            client: self.client,
            device: self.device,
            len: self.len,
            matmul_simple: self.matmul_simple@,
            matmul_double_buffering: self.matmul_double_buffering@,
            fallback: self.fallback,
        }
    }
}

impl MatmulOptimizationView {
    /// The two strategy units carry their fixed tags: selection between the
    /// strategies happens by choosing which unit to run, never by mutating a
    /// tag at call time.
    pub open spec fn wf(self) -> bool {
        &&& self.matmul_simple.selector == FusedMatmulSelector::Simple
        &&& self.matmul_double_buffering.selector == FusedMatmulSelector::DoubleBuffering
    }

    /// The snapshot an optimization persists: all state minus the runtime
    /// bindings and the call-scoped fallback operation.
    pub open spec fn to_state(self) -> MatmulOptimizationStateView {
        MatmulOptimizationStateView {
            trace: self.trace,
            trace_fallback: self.trace_fallback,
            matmul_simple: self.matmul_simple,
            matmul_double_buffering: self.matmul_double_buffering,
            len: self.len,
        }
    }
}

impl MatmulOptimizationStateView {
    /// The optimization a snapshot restores to on a device: the persisted
    /// state, the client rebound from the device, and no fallback operation.
    pub open spec fn restored(self, device: Device) -> MatmulOptimizationView {
        MatmulOptimizationView {
            trace: self.trace,
            trace_fallback: self.trace_fallback,
            client: ComputeClient { device_id: device.id, properties: device.properties },
            device,
            len: self.len,
            matmul_simple: self.matmul_simple,
            matmul_double_buffering: self.matmul_double_buffering,
            fallback: None,
        }
    }
}

impl MatmulOptimization {
    /// A fresh optimization over the two trace captures: the template unit is
    /// cloned into the two strategy variants, one tagged simple and one tagged
    /// double-buffering, and no fallback operation is captured yet.
    pub fn new(
        trace: FuseTrace,
        trace_fallback: FuseTrace,
        client: ComputeClient,
        device: Device,
        len: usize,
        matmul: FusedMatmul,
    ) -> (r: Self)
        ensures
            r@ == (MatmulOptimizationView {
                trace: trace@,
                trace_fallback: trace_fallback@,
                client,
                device,
                len,
                matmul_simple: FusedMatmulView {
                    selector: FusedMatmulSelector::Simple,
                    ..matmul@
                },
                matmul_double_buffering: FusedMatmulView {
                    selector: FusedMatmulSelector::DoubleBuffering,
                    ..matmul@
                },
                fallback: None::<FallbackOperation>,
            }),
            r@.wf(),
    {
        let mut matmul_simple = matmul.clone();
        let mut matmul_double_buffering = matmul;

        matmul_simple.selector = FusedMatmulSelector::Simple;
        matmul_double_buffering.selector = FusedMatmulSelector::DoubleBuffering;

        MatmulOptimization {
            trace,
            trace_fallback,
            client,
            device,
            len,
            matmul_simple,
            matmul_double_buffering,
            fallback: None,
        }
    }

    /// Begin one execution of the optimization: capture the fallback
    /// operation for position zero — always first, unconditionally, since the
    /// autotune path and the manual path may both need it — and hand the
    /// caller what to drive next. Recoverable fused errors never surface from
    /// an execute call: they become a fallback run via the follow-up decision.
    pub fn execute(&mut self, autotune_enabled: bool) -> (a: ExecuteAction)
        ensures
            final(self)@ == (MatmulOptimizationView {
                fallback: Some(FallbackOperation { index: 0 }),
                ..old(self)@
            }),
            a == (if autotune_enabled {
                ExecuteAction::DelegateToAutotuner
            } else {
                ExecuteAction::TryFused
            }),
    {
        self.fallback = Some(FallbackOperation { index: 0 });

        if autotune_enabled {
            ExecuteAction::DelegateToAutotuner
        } else {
            ExecuteAction::TryFused
        }
    }

    /// The follow-up the non-autotuned execute path owes once the fused
    /// attempt's outcome is known: on any recoverable error, run the fallback.
    pub fn after_fused_attempt(
        &self,
        outcome: &Result<TuneOutput, TraceError<FusedMatmulError>>,
    ) -> (f: FollowUp)
        requires
            self.fallback is Some,
        ensures
            f == follow_up_of(*outcome),
    {
        match outcome {
            Ok(_) => FollowUp::Done,
            Err(_) => FollowUp::RunFallback,
        }
    }

    /// Number of operations fused.
    pub fn num_ops_fused(&self) -> (n: usize)
        ensures
            n == self.len,
    {
        self.len
    }

    /// Number of output buffers added by fusion: the outputs the fallback
    /// trace declares.
    pub fn num_output_buffers(&self) -> (n: usize)
        ensures
            n == self.trace_fallback.resources.outputs.len(),
    {
        self.trace_fallback.resources.outputs.len()
    }

    /// Restore an optimization from its snapshot, rebinding the client from
    /// the given device; the fallback operation is call-scoped and starts
    /// unset.
    pub fn from_state(device: &Device, state: MatmulOptimizationState) -> (r: Self)
        ensures
            r@ == state@.restored(*device),
    {
        MatmulOptimization {
            trace: state.trace,
            trace_fallback: state.trace_fallback,
            len: state.len,
            client: device.client(),
            device: *device,
            matmul_simple: state.matmul_simple,
            matmul_double_buffering: state.matmul_double_buffering,
            fallback: None,
        }
    }

    /// Snapshot the optimization into its persistable state.
    pub fn to_state(&self) -> (s: MatmulOptimizationState)
        ensures
            s@ == self@.to_state(),
    {
        MatmulOptimizationState {
            trace: self.trace.clone(),
            trace_fallback: self.trace_fallback.clone(),
            matmul_simple: self.matmul_simple.clone(),
            matmul_double_buffering: self.matmul_double_buffering.clone(),
            len: self.len,
        }
    }

    /// Run request for the fused trace with the simple-strategy unit.
    pub fn execute_simple_fused(&self) -> (r: TraceRunRequest)
        ensures
            r@ == (TraceRunRequestView { trace: self.trace@, runner: self.matmul_simple@ }),
    {
        TraceRunRequest { trace: self.trace.clone(), runner: self.matmul_simple.clone() }
    }

    /// Run request for the fused trace with the double-buffering-strategy
    /// unit.
    pub fn execute_double_buffering_fused(&self) -> (r: TraceRunRequest)
        ensures
            r@ == (TraceRunRequestView {
                trace: self.trace@,
                runner: self.matmul_double_buffering@,
            }),
    {
        TraceRunRequest { trace: self.trace.clone(), runner: self.matmul_double_buffering.clone() }
    }

    /// The fallback execution plan: the captured unfused operation — whose
    /// absence here is a contract violation, since every path that can need
    /// the fallback captures it first — then, when correctness checks are
    /// enabled, the matmul output tensor to record before the elementwise
    /// pass, and the fallback trace to run through the elementwise-fusion
    /// runner.
    pub fn execute_fallback(&self, checks_enabled: bool) -> (p: FallbackPlan)
        requires
            self.fallback is Some,
        ensures
            p.operation == self.fallback->0,
            p.check_output == (if checks_enabled {
                Some(self.matmul_simple.op.out.id)
            } else {
                None::<u64>
            }),
            p.trace@ == self.trace_fallback@,
    {
        let operation = match &self.fallback {
            Some(op) => *op,
            None => vstd::pervasive::unreached(),
        };
        let check_output = if checks_enabled {
            Some(self.matmul_simple.op.out.id)
        } else {
            None
        };
        FallbackPlan { operation, check_output, trace: self.trace_fallback.clone() }
    }
}

/// Law: snapshotting an optimization and restoring the snapshot on a fresh
/// device yields an optimization whose fused and fallback traces and strategy
/// units are structurally identical to the snapshotted one's, bound to that
/// device, with the fallback operation unset.
pub proof fn lemma_state_round_trip(c: MatmulOptimizationView, device: Device)
    ensures
        c.to_state().restored(device).trace == c.trace,
        c.to_state().restored(device).trace_fallback == c.trace_fallback,
        c.to_state().restored(device).matmul_simple == c.matmul_simple,
        c.to_state().restored(device).matmul_double_buffering == c.matmul_double_buffering,
        c.to_state().restored(device).len == c.len,
        c.to_state().restored(device).fallback is None,
        c.to_state().restored(device).device == device,
        c.wf() ==> c.to_state().restored(device).wf(),
{
}

/// Law: within one execute call, exactly one of the fused attempt and the
/// fallback produces the final output — the fallback plan runs if and only if
/// the fused attempt failed.
pub proof fn lemma_exactly_one_output_producer(
    outcome: Result<TuneOutput, TraceError<FusedMatmulError>>,
)
    ensures
        (outcome is Ok) <==> follow_up_of(outcome) == FollowUp::Done,
        (outcome is Err) <==> follow_up_of(outcome) == FollowUp::RunFallback,
{
}

} // verus!
