//! Error taxonomy of the fused-matmul engine. Every variant here is
//! recoverable: the coordinator converts it into a fallback run. Contract
//! violations (an unsupported output precision, a missing fallback operation)
//! are not errors of this taxonomy; they are excluded by preconditions.

use vstd::prelude::*;

verus! {

/// Capability a kernel launch found missing on the device.
#[derive(Clone, Copy, PartialEq, Eq, Structural, Debug)]
pub enum MatmulAvailabilityError {
    /// The device cannot report its plane (warp/wavefront) width.
    PlaneDimUnknown,
    /// The device lacks a hardware feature the chosen algorithm needs.
    FeatureUnavailable,
}

/// Failure when configuring or launching a matmul kernel algorithm.
#[derive(Clone, Copy, PartialEq, Eq, Structural, Debug)]
pub enum MatmulLaunchError {
    /// A capability the launch needs is unavailable.
    Unavailable(MatmulAvailabilityError),
    /// The algorithm rejected the requested configuration.
    InvalidConfig,
}

/// Failure of the fused-matmul path. Recoverable by running the fallback.
#[derive(Clone, Copy, PartialEq, Eq, Structural, Debug)]
pub enum FusedMatmulError {
    /// A kernel launch failed or could not be configured.
    LaunchError(MatmulLaunchError),
    /// An operand layout would require a materializing copy, or the output
    /// line size is incompatible with the input line sizes.
    InvalidInput,
}

impl From<MatmulLaunchError> for FusedMatmulError {
    /// A launch failure is wrapped, never panicked on.
    fn from(value: MatmulLaunchError) -> (r: Self) {
        FusedMatmulError::LaunchError(value)
    }
}

impl vstd::std_specs::convert::FromSpecImpl<MatmulLaunchError> for FusedMatmulError {
    open spec fn obeys_from_spec() -> bool {
        true
    }

    open spec fn from_spec(value: MatmulLaunchError) -> Self {
        FusedMatmulError::LaunchError(value)
    }
}

} // verus!
