//! Fused matrix-multiply kernel selection, validation, and dispatch.
//!
//! The crate turns the raw metadata of a captured operation trace — tensor
//! shapes, strides, vector widths, numeric precisions, and device
//! capabilities — into a validated kernel-launch decision for a matmul fused
//! with trailing elementwise operations, and it orchestrates the fallback to
//! an unfused execution path whenever the fused launch cannot run. The actual
//! kernel algorithms, the trace-execution framework, and the device runtime
//! are external collaborators: the crate decides, callers perform.
//!
//! A small companion module, [`sharding`], describes logical device meshes for
//! distributed execution.

pub mod device;
pub mod ir;
pub mod layout;
pub mod matmul;
pub mod optimization;
pub mod problem;
pub mod sharding;
pub mod util;
