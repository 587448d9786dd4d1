//! The resources of one bootstrap, as the lifecycle records them: the
//! driver's handle of each, with what it was created from.

use vstd::prelude::*;
use crate::vulkan::make_api_version;

verus! {

/// Optional device features to enable at device creation, by name.
#[derive(Clone, Copy, Debug, PartialEq, Eq, Structural)]
pub struct FeatureSet {
    /// The second generation of the synchronization commands.
    pub synchronization2: bool,
}

/// What a bootstrap asks of the driver.
#[derive(Clone, Copy, Debug, PartialEq, Eq, Structural)]
pub struct Config {
    /// Packed API version that the application descriptor carries.
    pub api_version: u32,
    /// Features that the logical device enables.
    pub features: FeatureSet,
}

/// Packed form of API version `major.minor`, variant 0 and patch 0.
pub open spec fn packed_version(major: u32, minor: u32) -> u32 {
    (major << 22u32) | (minor << 12u32)
}

/// Packs API version `major.minor`, variant 0 and patch 0.
pub fn api_version(major: u32, minor: u32) -> (version: u32)
    ensures
        version == packed_version(major, minor),
{
    let version: u32 = make_api_version(0, major, minor, 0);
    assert((0u32 << 29u32) | (major << 22u32) | (minor << 12u32) | 0u32 == (major << 22u32) | (minor
        << 12u32)) by (bit_vector);
    version
}

impl Config {
    /// API version 1.4 with `synchronization2` enabled.
    pub fn baseline() -> (config: Config)
        ensures
            config.api_version == 0x0040_4000u32,
            config.features.synchronization2,
    {
        assert(packed_version(1, 4) == 0x0040_4000u32) by (bit_vector);
        Config { api_version: api_version(1, 4), features: FeatureSet { synchronization2: true } }
    }
}

/// The API instance.
#[derive(Clone, Copy, Debug, PartialEq, Eq, Structural)]
pub struct InstanceHandle {
    /// The driver's handle.
    pub raw: u64,
    /// The API version it was requested with.
    pub api_version: u32,
}

/// The logical device.
#[derive(Clone, Copy, Debug, PartialEq, Eq, Structural)]
pub struct DeviceHandle {
    /// The driver's handle.
    pub raw: u64,
    /// The physical device it was derived from.
    pub physical_device: u64,
    /// The queue family it was created with.
    pub queue_family: u32,
    /// The features it enabled.
    pub features: FeatureSet,
}

/// One queue of the logical device. It lives and dies with the device.
#[derive(Clone, Copy, Debug, PartialEq, Eq, Structural)]
pub struct QueueHandle {
    /// The driver's handle.
    pub raw: u64,
    /// The family of the queue.
    pub family: u32,
    /// Its index within the family.
    pub index: u32,
}

/// The command pool.
#[derive(Clone, Copy, Debug, PartialEq, Eq, Structural)]
pub struct CommandPoolHandle {
    /// The driver's handle.
    pub raw: u64,
    /// The queue family that its buffers are for.
    pub queue_family: u32,
}

/// Where a command buffer stands between allocation and execution.
#[derive(Clone, Copy, Debug, PartialEq, Eq, Structural)]
pub enum BufferState {
    /// Allocated, nothing recorded.
    Initial,
    /// Between begin and end of recording.
    Recording,
    /// Recorded, ready to submit.
    Executable,
    /// Submitted, not known to have completed.
    Pending,
    /// Used up, or abandoned: not to be used again without a reset.
    Invalid,
}

/// Level of a command buffer.
#[derive(Clone, Copy, Debug, PartialEq, Eq, Structural)]
pub enum BufferLevel {
    /// Submitted to a queue directly.
    Primary,
    /// Executed from a primary buffer.
    Secondary,
}

/// The command buffer. It is freed with its pool.
#[derive(Clone, Copy, Debug, PartialEq, Eq, Structural)]
pub struct CommandBufferHandle {
    /// The driver's handle.
    pub raw: u64,
    /// Where it stands.
    pub state: BufferState,
}

} // verus!
