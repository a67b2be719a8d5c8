use matmul_fusion::device::{ComputeClient, Device, HardwareProperties};
use matmul_fusion::ir::{Arg, BinaryOpIr, FusePrecision, FuseResources, FuseTrace, TensorIr};
use matmul_fusion::matmul::error::{FusedMatmulError, MatmulAvailabilityError, MatmulLaunchError};
use matmul_fusion::matmul::{FusedMatmul, FusedMatmulSelector};
use matmul_fusion::optimization::{ExecuteAction, FollowUp, MatmulOptimization, RecordedHandle,
    TraceError, TuneOutput};

fn trace(input_slots: u32, output_slots: u32) -> FuseTrace {
    let inputs = (0..input_slots).map(|i| Arg::Input(i, FusePrecision::F32)).collect();
    let outputs = (0..output_slots).map(|i| Arg::Output(i, FusePrecision::F32)).collect();
    FuseTrace { resources: FuseResources { inputs, outputs } }
}

fn template_unit() -> FusedMatmul {
    FusedMatmul::new(
        Arg::Input(0, FusePrecision::F32),
        Arg::Input(1, FusePrecision::F32),
        Arg::Output(0, FusePrecision::F32),
        BinaryOpIr {
            lhs: TensorIr { id: 1, shape: vec![8, 16, 32] },
            rhs: TensorIr { id: 2, shape: vec![8, 32, 64] },
            out: TensorIr { id: 7, shape: vec![8, 16, 64] },
        },
        FusedMatmulSelector::default(),
    )
}

fn device(id: u32) -> Device {
    Device { id, properties: HardwareProperties { plane_size: Some(32), tf32_supported: false } }
}

fn coordinator() -> MatmulOptimization {
    let d = device(0);
    MatmulOptimization::new(trace(2, 1), trace(2, 3), d.client(), d, 5, template_unit())
}

fn assert_units_equal(a: &FusedMatmul, b: &FusedMatmul) {
    assert_eq!(a.lhs, b.lhs);
    assert_eq!(a.rhs, b.rhs);
    assert_eq!(a.out, b.out);
    assert_eq!(a.op.lhs.id, b.op.lhs.id);
    assert_eq!(a.op.lhs.shape, b.op.lhs.shape);
    assert_eq!(a.op.rhs.id, b.op.rhs.id);
    assert_eq!(a.op.rhs.shape, b.op.rhs.shape);
    assert_eq!(a.op.out.id, b.op.out.id);
    assert_eq!(a.op.out.shape, b.op.out.shape);
    assert_eq!(a.selector, b.selector);
}

#[test]
fn new_tags_the_two_units() {
    let c = coordinator();
    assert_eq!(c.matmul_simple.selector, FusedMatmulSelector::Simple);
    assert_eq!(c.matmul_double_buffering.selector, FusedMatmulSelector::DoubleBuffering);
    assert!(c.fallback.is_none());
    assert_eq!(c.num_ops_fused(), 5);
    assert_eq!(c.num_output_buffers(), 3);
}

#[test]
fn default_selector_is_simple() {
    assert_eq!(FusedMatmulSelector::default(), FusedMatmulSelector::Simple);
}

#[test]
fn state_round_trip_restores_structure_and_unsets_fallback() {
    let mut c = coordinator();
    c.execute(false);
    assert!(c.fallback.is_some());

    let state = c.to_state();
    let fresh = device(9);
    let restored = MatmulOptimization::from_state(&fresh, state);

    assert_eq!(restored.trace.resources.inputs, c.trace.resources.inputs);
    assert_eq!(restored.trace.resources.outputs, c.trace.resources.outputs);
    assert_eq!(restored.trace_fallback.resources.inputs, c.trace_fallback.resources.inputs);
    assert_eq!(restored.trace_fallback.resources.outputs, c.trace_fallback.resources.outputs);
    assert_units_equal(&restored.matmul_simple, &c.matmul_simple);
    assert_units_equal(&restored.matmul_double_buffering, &c.matmul_double_buffering);
    assert_eq!(restored.len, c.len);
    assert!(restored.fallback.is_none());
    assert_eq!(restored.device.id, 9);
    assert_eq!(restored.client.device_id, 9);
}

#[test]
fn execute_captures_fallback_and_picks_path() {
    let mut c = coordinator();
    assert_eq!(c.execute(true), ExecuteAction::DelegateToAutotuner);
    assert_eq!(c.fallback.unwrap().index, 0);

    let mut c = coordinator();
    assert_eq!(c.execute(false), ExecuteAction::TryFused);
    assert_eq!(c.fallback.unwrap().index, 0);
}

#[test]
fn fused_error_triggers_fallback_and_success_does_not() {
    let mut c = coordinator();
    c.execute(false);

    let failed: Result<TuneOutput, TraceError<FusedMatmulError>> = Err(TraceError::Runner(
        FusedMatmulError::LaunchError(MatmulLaunchError::Unavailable(
            MatmulAvailabilityError::PlaneDimUnknown,
        )),
    ));
    assert_eq!(c.after_fused_attempt(&failed), FollowUp::RunFallback);

    let succeeded: Result<TuneOutput, TraceError<FusedMatmulError>> = Ok(TuneOutput::UnChecked);
    assert_eq!(c.after_fused_attempt(&succeeded), FollowUp::Done);
}

#[test]
fn fallback_plan_records_matmul_output_when_checked() {
    let mut c = coordinator();
    c.execute(false);

    let unchecked = c.execute_fallback(false);
    assert_eq!(unchecked.operation.index, 0);
    assert_eq!(unchecked.check_output, None);
    assert_eq!(unchecked.trace.resources.outputs, c.trace_fallback.resources.outputs);

    let checked = c.execute_fallback(true);
    assert_eq!(checked.check_output, Some(7));
}

#[test]
fn per_strategy_requests_use_the_tagged_units() {
    let c = coordinator();
    let simple = c.execute_simple_fused();
    assert_eq!(simple.runner.selector, FusedMatmulSelector::Simple);
    assert_eq!(simple.trace.resources.inputs, c.trace.resources.inputs);

    let double = c.execute_double_buffering_fused();
    assert_eq!(double.runner.selector, FusedMatmulSelector::DoubleBuffering);
    assert_eq!(double.trace.resources.outputs, c.trace.resources.outputs);
}

#[test]
fn tune_outputs_merge_handles() {
    let a = RecordedHandle { id: 7, shape: vec![8, 16, 64], handle: 100 };
    let b = RecordedHandle { id: 9, shape: vec![8, 16, 64], handle: 200 };

    let merged = TuneOutput::Checked { handles: vec![a.clone()] }
        .merge(TuneOutput::Checked { handles: vec![b.clone()] });
    match merged {
        TuneOutput::Checked { handles } => assert_eq!(handles, vec![a.clone(), b.clone()]),
        TuneOutput::UnChecked => panic!("expected a checked output"),
    }

    let merged = TuneOutput::UnChecked.merge(TuneOutput::Checked { handles: vec![b.clone()] });
    match merged {
        TuneOutput::Checked { handles } => assert_eq!(handles, vec![b]),
        TuneOutput::UnChecked => panic!("expected a checked output"),
    }

    assert!(matches!(
        TuneOutput::UnChecked.merge(TuneOutput::UnChecked),
        TuneOutput::UnChecked,
    ));
}
