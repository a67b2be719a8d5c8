//! The device-side facts the engine queries.
//!
//! The compute runtime itself — command streams, memory handles, kernel
//! enqueueing — is an external collaborator. The engine only ever reads two
//! capabilities from it: the plane (warp/wavefront) width the device schedules
//! with, and whether the device accelerates a reduced-precision accumulation
//! mode for 32-bit floats. Both are carried here as plain values.

use vstd::prelude::*;

verus! {

/// Hardware capabilities of a device, as its runtime reports them.
#[derive(Clone, Copy, PartialEq, Eq, Structural, Debug)]
pub struct HardwareProperties {
    /// The plane (warp/wavefront) width the device schedules with, if the
    /// device reports one.
    pub plane_size: Option<u32>,
    /// Whether the device accelerates a reduced-precision accumulation mode
    /// for 32-bit floats on its tensor-core-class units.
    pub tf32_supported: bool,
}

/// Handle to a compute device.
#[derive(Clone, Copy, PartialEq, Eq, Structural, Debug)]
pub struct Device {
    /// Identifier of the device.
    pub id: u32,
    /// Capabilities the device reports.
    pub properties: HardwareProperties,
}

/// Client bound to a device's in-order command stream. Shared by every unit
/// working on the same device; it is only queried for capabilities, never
/// mutated.
#[derive(Clone, Copy, PartialEq, Eq, Structural, Debug)]
pub struct ComputeClient {
    /// The device this client enqueues to.
    pub device_id: u32,
    /// Capabilities of that device.
    pub properties: HardwareProperties,
}

impl Device {
    /// The client bound to this device.
    pub fn client(&self) -> (c: ComputeClient)
        ensures
            c.device_id == self.id,
            c.properties == self.properties,
    {
        ComputeClient { device_id: self.id, properties: self.properties }
    }
}

impl ComputeClient {
    /// The plane width the device reports, if any.
    pub fn defined_plane_size(&self) -> (p: Option<u32>)
        ensures
            p == self.properties.plane_size,
    {
        self.properties.plane_size
    }

    /// Whether the device accelerates reduced-precision accumulation for
    /// 32-bit floats.
    pub fn tf32_supported(&self) -> (b: bool)
        ensures
            b == self.properties.tf32_supported,
    {
        self.properties.tf32_supported
    }
}

} // verus!
