//! What one enumeration of the instance reports: physical devices, each with
//! its type and its queue families. Values only; nothing here is owned.

use vstd::prelude::*;
use crate::vulkan::{
    discrete_gpu_type, integrated_gpu_type, queue_compute_bit, queue_flags_contain,
    queue_graphics_bit, queue_transfer_bit,
};

verus! {

/// Preference tier of a physical device.
#[derive(Clone, Copy, Debug, PartialEq, Eq, Structural)]
pub enum DeviceRank {
    /// A discrete GPU.
    Preferred,
    /// An integrated GPU.
    Acceptable,
    /// Anything else: virtual GPU, CPU, unknown.
    LastResort,
}

impl DeviceRank {
    /// The number by which devices are ordered; lower wins.
    pub open spec fn spec_weight(self) -> u32 {
        match self {
            DeviceRank::Preferred => 0,
            DeviceRank::Acceptable => 1,
            DeviceRank::LastResort => 3,
        }
    }

    /// The number by which devices are ordered; lower wins.
    #[verifier::when_used_as_spec(spec_weight)]
    pub fn weight(self) -> (w: u32)
        ensures
            w == self.spec_weight(),
    {
        match self {
            DeviceRank::Preferred => 0,
            DeviceRank::Acceptable => 1,
            DeviceRank::LastResort => 3,
        }
    }
}

/// Tier of a raw device type as the driver reports it: 2 is a discrete GPU,
/// 1 an integrated GPU.
pub open spec fn rank_of(device_type: i32) -> DeviceRank {
    if device_type == 2 {
        DeviceRank::Preferred
    } else if device_type == 1 {
        DeviceRank::Acceptable
    } else {
        DeviceRank::LastResort
    }
}

/// Ranks a raw device type.
pub fn rank(device_type: i32) -> (r: DeviceRank)
    ensures
        r == rank_of(device_type),
{
    if device_type == discrete_gpu_type() {
        DeviceRank::Preferred
    } else if device_type == integrated_gpu_type() {
        DeviceRank::Acceptable
    } else {
        DeviceRank::LastResort
    }
}

/// One queue family of a physical device.
#[derive(Clone, Copy, Debug, PartialEq, Eq, Structural)]
pub struct QueueFamilyDescriptor {
    /// Capability flags, one bit per capability.
    pub flags: u32,
    /// Number of queues in the family.
    pub count: u32,
}

impl QueueFamilyDescriptor {
    /// The family can run graphics work.
    pub open spec fn has_graphics(self) -> bool {
        self.flags & 0x1 != 0
    }

    /// The family can run compute work.
    pub open spec fn has_compute(self) -> bool {
        self.flags & 0x2 != 0
    }

    /// The family can run transfer work.
    pub open spec fn has_transfer(self) -> bool {
        self.flags & 0x4 != 0
    }

    /// The family can serve as the single queue of this design: it has
    /// graphics, compute and transfer at once.
    pub open spec fn is_combined(self) -> bool {
        self.has_graphics() && self.has_compute() && self.has_transfer()
    }

    /// Whether the family has graphics, compute and transfer at once.
    pub fn supports_combined(&self) -> (yes: bool)
        ensures
            yes == self.is_combined(),
    {
        let required: u32 = queue_graphics_bit() | queue_compute_bit() | queue_transfer_bit();
        let flags: u32 = self.flags;
        assert(required == 0x7u32) by (bit_vector)
            requires
                required == 0x1u32 | 0x2u32 | 0x4u32,
        ;
        assert((flags & 0x7u32 == 0x7u32) == (flags & 0x1u32 != 0 && flags & 0x2u32 != 0 && flags
            & 0x4u32 != 0)) by (bit_vector);
        queue_flags_contain(flags, required)
    }
}

/// One physical device, as enumerated.
#[derive(Debug)]
pub struct PhysicalDeviceDescriptor {
    /// The driver's handle of the device.
    pub handle: u64,
    /// The raw device type.
    pub device_type: i32,
    /// The queue families, in the driver's order.
    pub families: Vec<QueueFamilyDescriptor>,
}

impl PhysicalDeviceDescriptor {
    /// The tier of this device.
    pub open spec fn spec_rank(&self) -> DeviceRank {
        rank_of(self.device_type)
    }
}

} // verus!
