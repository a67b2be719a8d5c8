use matmul_fusion::device::{ComputeClient, HardwareProperties};
use matmul_fusion::ir::{Arg, BinaryOpIr, FuseBlockConfig, FusePrecision, GlobalArgs, RefLayout,
    TensorBinding, TensorIr};
use matmul_fusion::layout::{matrix_batch_layout, MatrixBatchLayout};
use matmul_fusion::matmul::error::{FusedMatmulError, MatmulAvailabilityError, MatmulLaunchError};
use matmul_fusion::matmul::{finish_launch, matmul_launch_kernel, FusedMatmul, FusedMatmulSelector,
    KernelAlgorithm, KernelLaunch, LaunchPrecision, MatmulPrecision};
use matmul_fusion::problem::{build_problem, MatmulProblem, MatrixLayout};

fn contiguous_strides(shape: &[usize]) -> Vec<usize> {
    let mut strides = vec![0; shape.len()];
    let mut current: usize = 1;
    for i in (0..shape.len()).rev() {
        strides[i] = current;
        current *= shape[i];
    }
    strides
}

fn binding(shape: Vec<usize>, strides: Vec<usize>, line_size: u32) -> TensorBinding {
    TensorBinding { shape, strides, line_size }
}

fn client(plane_size: Option<u32>, tf32_supported: bool) -> ComputeClient {
    ComputeClient { device_id: 0, properties: HardwareProperties { plane_size, tf32_supported } }
}

fn op_record() -> BinaryOpIr {
    BinaryOpIr {
        lhs: TensorIr { id: 1, shape: vec![8, 16, 32] },
        rhs: TensorIr { id: 2, shape: vec![8, 32, 64] },
        out: TensorIr { id: 3, shape: vec![8, 16, 64] },
    }
}

fn unit(precision: FusePrecision, selector: FusedMatmulSelector) -> FusedMatmul {
    FusedMatmul::new(
        Arg::Input(0, precision),
        Arg::Input(1, precision),
        Arg::Output(0, precision),
        op_record(),
        selector,
    )
}

struct Scenario {
    client: ComputeClient,
    inputs: GlobalArgs,
    outputs: GlobalArgs,
    configs: Vec<FuseBlockConfig>,
    unit: FusedMatmul,
}

fn scenario(precision: FusePrecision, selector: FusedMatmulSelector) -> Scenario {
    let lhs_shape = vec![8usize, 16, 32];
    let rhs_shape = vec![8usize, 32, 64];
    Scenario {
        client: client(Some(32), false),
        inputs: GlobalArgs {
            tensors: vec![
                binding(lhs_shape.clone(), contiguous_strides(&lhs_shape), 4),
                binding(rhs_shape.clone(), contiguous_strides(&rhs_shape), 4),
            ],
        },
        outputs: GlobalArgs { tensors: vec![binding(vec![8, 16, 64], contiguous_strides(&[8, 16, 64]), 4)] },
        configs: vec![FuseBlockConfig { ref_layout: RefLayout::Concrete(Arg::Output(0, precision)) }],
        unit: unit(precision, selector),
    }
}

fn run(s: &Scenario) -> Result<KernelLaunch, FusedMatmulError> {
    s.unit.run(&s.client, &s.inputs, &s.outputs, &s.configs)
}

#[test]
fn contiguous_f32_simple_launches() {
    let s = scenario(FusePrecision::F32, FusedMatmulSelector::Simple);
    let launch = run(&s).unwrap();

    assert_eq!(launch.problem.m, 16);
    assert_eq!(launch.problem.k, 32);
    assert_eq!(launch.problem.n, 64);
    assert_eq!(launch.problem.lhs_layout, MatrixLayout::RowMajor);
    assert_eq!(launch.problem.rhs_layout, MatrixLayout::RowMajor);
    assert_eq!(launch.problem.batches, (vec![8], vec![8]));
    assert_eq!(launch.problem.lhs_line_size, 4);
    assert_eq!(launch.problem.rhs_line_size, 4);
    assert_eq!(launch.problem.out_line_size, 4);
    assert_eq!(launch.algorithm, KernelAlgorithm::Simple);
    assert_eq!(launch.precision, LaunchPrecision::Exact(MatmulPrecision::F32));
    assert_eq!(launch.plane_size, 32);
}

#[test]
fn transposed_rhs_launches_col_major_without_copy() {
    let mut s = scenario(FusePrecision::F32, FusedMatmulSelector::Simple);
    // Same shapes, but the right-hand operand is stored column-major: its
    // trailing two strides are swapped.
    s.inputs.tensors[1].strides = vec![2048, 1, 32];
    let launch = run(&s).unwrap();

    assert_eq!(launch.problem.lhs_layout, MatrixLayout::RowMajor);
    assert_eq!(launch.problem.rhs_layout, MatrixLayout::ColMajor);
    assert_eq!(launch.problem.rhs_line_size, 4);
    assert_eq!(launch.problem.m, 16);
    assert_eq!(launch.problem.k, 32);
    assert_eq!(launch.problem.n, 64);
}

#[test]
fn highly_permuted_lhs_is_invalid_input() {
    let mut s = scenario(FusePrecision::F32, FusedMatmulSelector::Simple);
    // A batch stride below the row stride mixes batch and matrix dimensions.
    s.inputs.tensors[0].strides = vec![8, 32, 1];
    assert_eq!(run(&s).unwrap_err(), FusedMatmulError::InvalidInput);
}

#[test]
fn highly_permuted_rhs_is_invalid_input() {
    let mut s = scenario(FusePrecision::F32, FusedMatmulSelector::Simple);
    // A broadcasted matrix dimension (stride zero) requires a copy.
    s.inputs.tensors[1].strides = vec![2048, 0, 1];
    assert_eq!(run(&s).unwrap_err(), FusedMatmulError::InvalidInput);
}

#[test]
fn unit_out_line_with_wide_inputs_is_invalid_input() {
    let mut s = scenario(FusePrecision::F32, FusedMatmulSelector::Simple);
    s.outputs.tensors[0].line_size = 1;
    assert_eq!(run(&s).unwrap_err(), FusedMatmulError::InvalidInput);
}

#[test]
fn missing_plane_width_is_unavailable() {
    let mut s = scenario(FusePrecision::F32, FusedMatmulSelector::Simple);
    s.client = client(None, false);
    assert_eq!(
        run(&s).unwrap_err(),
        FusedMatmulError::LaunchError(MatmulLaunchError::Unavailable(
            MatmulAvailabilityError::PlaneDimUnknown,
        )),
    );
}

#[test]
fn all_supported_precisions_dispatch() {
    for precision in [
        FusePrecision::F32,
        FusePrecision::Flex32,
        FusePrecision::F16,
        FusePrecision::BF16,
    ] {
        let s = scenario(precision, FusedMatmulSelector::Simple);
        let launch = run(&s).unwrap();
        let expected = match precision {
            FusePrecision::F32 => MatmulPrecision::F32,
            FusePrecision::Flex32 => MatmulPrecision::Flex32,
            FusePrecision::F16 => MatmulPrecision::F16,
            _ => MatmulPrecision::BF16,
        };
        assert_eq!(launch.precision, LaunchPrecision::Exact(expected));
    }
}

#[test]
fn f32_upgrades_to_tf32_when_supported() {
    let mut s = scenario(FusePrecision::F32, FusedMatmulSelector::Simple);
    s.client = client(Some(32), true);
    let launch = run(&s).unwrap();
    assert_eq!(launch.precision, LaunchPrecision::MixedTf32);
}

#[test]
fn flex32_keeps_exact_precision_despite_tf32_support() {
    let mut s = scenario(FusePrecision::Flex32, FusedMatmulSelector::Simple);
    s.client = client(Some(32), true);
    let launch = run(&s).unwrap();
    assert_eq!(launch.precision, LaunchPrecision::Exact(MatmulPrecision::Flex32));
}

#[test]
fn double_buffering_selector_picks_cyclic_algorithm() {
    let s = scenario(FusePrecision::F16, FusedMatmulSelector::DoubleBuffering);
    let launch = run(&s).unwrap();
    assert_eq!(launch.algorithm, KernelAlgorithm::CyclicDoubleBuffering);
}

#[test]
fn virtual_ref_layout_resolves_line_size_one() {
    let mut s = scenario(FusePrecision::F32, FusedMatmulSelector::Simple);
    s.configs = vec![FuseBlockConfig { ref_layout: RefLayout::Virtual }];
    // Wide input lines against the virtual unit output line are rejected.
    assert_eq!(run(&s).unwrap_err(), FusedMatmulError::InvalidInput);

    s.inputs.tensors[0].line_size = 1;
    s.inputs.tensors[1].line_size = 1;
    let launch = run(&s).unwrap();
    assert_eq!(launch.problem.out_line_size, 1);
}

#[test]
fn layout_classification_matches_stride_patterns() {
    assert_eq!(matrix_batch_layout(&vec![8, 4, 2, 1]), MatrixBatchLayout::Contiguous);
    assert_eq!(matrix_batch_layout(&vec![1]), MatrixBatchLayout::Contiguous);
    assert_eq!(
        matrix_batch_layout(&vec![8, 4, 1, 2]),
        MatrixBatchLayout::MildlyPermuted { transposed: true, batch_swap: false },
    );
    assert_eq!(
        matrix_batch_layout(&vec![4, 8, 2, 1]),
        MatrixBatchLayout::MildlyPermuted { transposed: false, batch_swap: true },
    );
    assert_eq!(
        matrix_batch_layout(&vec![0, 4, 1]),
        MatrixBatchLayout::MildlyPermuted { transposed: false, batch_swap: true },
    );
    assert_eq!(matrix_batch_layout(&vec![8, 2, 4, 1]), MatrixBatchLayout::HighlyPermuted);
    assert_eq!(matrix_batch_layout(&vec![1, 4, 2, 8]), MatrixBatchLayout::HighlyPermuted);
    assert_eq!(matrix_batch_layout(&vec![0, 1]), MatrixBatchLayout::HighlyPermuted);
    assert_eq!(matrix_batch_layout(&vec![1, 0]), MatrixBatchLayout::HighlyPermuted);
}

#[test]
fn build_problem_rejects_unit_out_line_before_construction() {
    let lhs_shape = vec![8usize, 16, 32];
    let rhs_shape = vec![8usize, 32, 64];
    let r = build_problem(&lhs_shape, &rhs_shape, false, false, 4, 1, 1);
    assert!(matches!(r, Err(FusedMatmulError::InvalidInput)));
}

#[test]
fn build_problem_extracts_dimensions_and_batches() {
    let lhs_shape = vec![2usize, 3, 16, 32];
    let rhs_shape = vec![2usize, 3, 32, 64];
    let p: MatmulProblem = build_problem(&lhs_shape, &rhs_shape, false, true, 2, 2, 2).unwrap();
    assert_eq!(p.m, 16);
    assert_eq!(p.k, 32);
    assert_eq!(p.n, 64);
    assert_eq!(p.batches, (vec![2, 3], vec![2, 3]));
    assert_eq!(p.lhs_layout, MatrixLayout::RowMajor);
    assert_eq!(p.rhs_layout, MatrixLayout::ColMajor);
}

#[test]
fn launch_kernel_applies_upgrade_only_for_f32() {
    let c = client(Some(32), true);
    let p = build_problem(&vec![4, 4], &vec![4, 4], false, false, 1, 1, 1).unwrap();
    let launch = matmul_launch_kernel(&c, KernelAlgorithm::Simple, MatmulPrecision::F32, p, 32);
    assert_eq!(launch.precision, LaunchPrecision::MixedTf32);

    let p = build_problem(&vec![4, 4], &vec![4, 4], false, false, 1, 1, 1).unwrap();
    let launch = matmul_launch_kernel(&c, KernelAlgorithm::Simple, MatmulPrecision::BF16, p, 32);
    assert_eq!(launch.precision, LaunchPrecision::Exact(MatmulPrecision::BF16));
}

#[test]
fn finish_launch_wraps_failures() {
    assert!(finish_launch(Ok(())).is_ok());
    assert_eq!(
        finish_launch(Err(MatmulLaunchError::InvalidConfig)).unwrap_err(),
        FusedMatmulError::LaunchError(MatmulLaunchError::InvalidConfig),
    );
    assert_eq!(
        finish_launch(Err(MatmulLaunchError::Unavailable(
            MatmulAvailabilityError::FeatureUnavailable,
        )))
        .unwrap_err(),
        FusedMatmulError::LaunchError(MatmulLaunchError::Unavailable(
            MatmulAvailabilityError::FeatureUnavailable,
        )),
    );
}

#[test]
fn rank_two_operands_have_no_batch_dimensions() {
    let mut s = scenario(FusePrecision::F32, FusedMatmulSelector::Simple);
    s.inputs.tensors[0] = binding(vec![16, 32], contiguous_strides(&[16, 32]), 4);
    s.inputs.tensors[1] = binding(vec![32, 64], contiguous_strides(&[32, 64]), 4);
    let launch = run(&s).unwrap();

    assert_eq!(launch.problem.m, 16);
    assert_eq!(launch.problem.k, 32);
    assert_eq!(launch.problem.n, 64);
    assert_eq!(launch.problem.batches, (Vec::new(), Vec::new()));
}
