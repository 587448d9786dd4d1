//! What passes between the lifecycle and its caller: the actions that the
//! caller performs against the driver, and the events in which it reports
//! what the driver answered.

use vstd::prelude::*;
use crate::descriptor::PhysicalDeviceDescriptor;
use crate::error::BootstrapError;
use crate::handle::{BufferLevel, FeatureSet};

verus! {

/// A driver call, or the end of the run, without its arguments.
#[derive(Clone, Copy, Debug, PartialEq, Eq, Hash, Structural)]
pub enum Call {
    /// Resolve the driver's loader.
    Load,
    /// Create the instance.
    CreateInstance,
    /// Enumerate the physical devices with their queue families.
    EnumerateDevices,
    /// Create the logical device and fetch its queue.
    CreateDevice,
    /// Create the command pool.
    CreateCommandPool,
    /// Allocate the command buffer from the pool.
    AllocateCommandBuffer,
    /// Begin recording into the command buffer.
    BeginRecording,
    /// Record the commands of the unit of work.
    Record,
    /// End recording.
    EndRecording,
    /// Submit the command buffer to the queue.
    Submit,
    /// Block until the queue is idle.
    WaitIdle,
    /// Destroy the command pool, and with it the command buffer.
    DestroyCommandPool,
    /// Destroy the logical device, and with it the queue.
    DestroyDevice,
    /// Destroy the instance.
    DestroyInstance,
    /// Nothing is left to do.
    Finish,
}

/// A resource that the lifecycle owns and has to destroy.
#[derive(Clone, Copy, Debug, PartialEq, Eq, Hash, Structural)]
pub enum Resource {
    /// The API instance.
    Instance,
    /// The logical device, child of the instance.
    Device,
    /// The command pool, child of the device.
    CommandPool,
}

impl Resource {
    /// The call that creates the resource.
    pub open spec fn creator(self) -> Call {
        match self {
            Resource::Instance => Call::CreateInstance,
            Resource::Device => Call::CreateDevice,
            Resource::CommandPool => Call::CreateCommandPool,
        }
    }

    /// The call that destroys the resource.
    pub open spec fn destroyer(self) -> Call {
        match self {
            Resource::Instance => Call::DestroyInstance,
            Resource::Device => Call::DestroyDevice,
            Resource::CommandPool => Call::DestroyCommandPool,
        }
    }
}

impl Call {
    /// Place of the call in the run that succeeds, from 0.
    pub open spec fn ordinal(self) -> int {
        match self {
            Call::Load => 0,
            Call::CreateInstance => 1,
            Call::EnumerateDevices => 2,
            Call::CreateDevice => 3,
            Call::CreateCommandPool => 4,
            Call::AllocateCommandBuffer => 5,
            Call::BeginRecording => 6,
            Call::Record => 7,
            Call::EndRecording => 8,
            Call::Submit => 9,
            Call::WaitIdle => 10,
            Call::DestroyCommandPool => 11,
            Call::DestroyDevice => 12,
            Call::DestroyInstance => 13,
            Call::Finish => 14,
        }
    }

    /// The call builds: it comes before any teardown, and it can fail.
    pub open spec fn is_forward(self) -> bool {
        self.ordinal() <= Call::WaitIdle.ordinal()
    }

    /// The call creates an owned resource, or the command buffer.
    pub open spec fn builds(self) -> bool {
        self == Call::CreateInstance || self == Call::CreateDevice || self
            == Call::CreateCommandPool || self == Call::AllocateCommandBuffer
    }

    /// The call destroys an owned resource.
    pub open spec fn is_teardown(self) -> bool {
        self == Call::DestroyCommandPool || self == Call::DestroyDevice || self
            == Call::DestroyInstance
    }
}

/// One step for the caller to perform: a driver call with its arguments, or
/// the end of the run with its outcome.
#[derive(Clone, Copy, Debug, PartialEq, Eq)]
pub enum Action {
    /// Resolve the driver's loader.
    Load,
    /// Create the instance, with no layers and no extensions.
    CreateInstance { api_version: u32 },
    /// Enumerate the physical devices of `instance`, each with its type and
    /// its queue families.
    EnumerateDevices { instance: u64 },
    /// Create the logical device on `physical_device` with `queue_count`
    /// queues of `queue_family` at the highest priority, and fetch the queue
    /// at `queue_index`.
    CreateDevice {
        instance: u64,
        physical_device: u64,
        queue_family: u32,
        queue_count: u32,
        queue_index: u32,
        features: FeatureSet,
    },
    /// Create a command pool for `queue_family`.
    CreateCommandPool { device: u64, queue_family: u32 },
    /// Allocate `count` command buffers of `level` from `pool`.
    AllocateCommandBuffer { device: u64, pool: u64, level: BufferLevel, count: u32 },
    /// Begin recording into `buffer`.
    BeginRecording { buffer: u64, one_time_submit: bool },
    /// Record the commands of the unit of work into `buffer`.
    Record { buffer: u64 },
    /// End recording into `buffer`.
    EndRecording { buffer: u64 },
    /// Submit `buffer` to `queue`, with no semaphore and no fence.
    Submit { queue: u64, buffer: u64 },
    /// Block until `queue` is idle.
    WaitIdle { queue: u64 },
    /// Destroy `pool`.
    DestroyCommandPool { device: u64, pool: u64 },
    /// Destroy `device`.
    DestroyDevice { device: u64 },
    /// Destroy `instance`.
    DestroyInstance { instance: u64 },
    /// Nothing is left to do; `error` is what ended the run early, if
    /// anything did.
    Finish { error: Option<BootstrapError> },
}

impl Action {
    /// The call that the action makes.
    pub open spec fn spec_call(self) -> Call {
        match self {
            Action::Load => Call::Load,
            Action::CreateInstance { .. } => Call::CreateInstance,
            Action::EnumerateDevices { .. } => Call::EnumerateDevices,
            Action::CreateDevice { .. } => Call::CreateDevice,
            Action::CreateCommandPool { .. } => Call::CreateCommandPool,
            Action::AllocateCommandBuffer { .. } => Call::AllocateCommandBuffer,
            Action::BeginRecording { .. } => Call::BeginRecording,
            Action::Record { .. } => Call::Record,
            Action::EndRecording { .. } => Call::EndRecording,
            Action::Submit { .. } => Call::Submit,
            Action::WaitIdle { .. } => Call::WaitIdle,
            Action::DestroyCommandPool { .. } => Call::DestroyCommandPool,
            Action::DestroyDevice { .. } => Call::DestroyDevice,
            Action::DestroyInstance { .. } => Call::DestroyInstance,
            Action::Finish { .. } => Call::Finish,
        }
    }

    /// The call that the action makes.
    #[verifier::when_used_as_spec(spec_call)]
    pub fn call(self) -> (call: Call)
        ensures
            call == self.spec_call(),
    {
        match self {
            Action::Load => Call::Load,
            Action::CreateInstance { .. } => Call::CreateInstance,
            Action::EnumerateDevices { .. } => Call::EnumerateDevices,
            Action::CreateDevice { .. } => Call::CreateDevice,
            Action::CreateCommandPool { .. } => Call::CreateCommandPool,
            Action::AllocateCommandBuffer { .. } => Call::AllocateCommandBuffer,
            Action::BeginRecording { .. } => Call::BeginRecording,
            Action::Record { .. } => Call::Record,
            Action::EndRecording { .. } => Call::EndRecording,
            Action::Submit { .. } => Call::Submit,
            Action::WaitIdle { .. } => Call::WaitIdle,
            Action::DestroyCommandPool { .. } => Call::DestroyCommandPool,
            Action::DestroyDevice { .. } => Call::DestroyDevice,
            Action::DestroyInstance { .. } => Call::DestroyInstance,
            Action::Finish { .. } => Call::Finish,
        }
    }
}

/// What the driver answered to the action that was pending.
#[derive(Debug)]
pub enum Event {
    /// The loader was resolved.
    Loaded,
    /// The instance was created.
    InstanceCreated { instance: u64 },
    /// The physical devices were enumerated.
    DevicesEnumerated { devices: Vec<PhysicalDeviceDescriptor> },
    /// The logical device was created and its queue fetched.
    DeviceCreated { device: u64, queue: u64 },
    /// The command pool was created.
    CommandPoolCreated { pool: u64 },
    /// The command buffer was allocated.
    CommandBufferAllocated { buffer: u64 },
    /// Recording has begun.
    RecordingBegun,
    /// The commands were recorded.
    Recorded,
    /// Recording has ended.
    RecordingEnded,
    /// The command buffer was submitted.
    Submitted,
    /// The queue is idle.
    QueueIdle,
    /// The resource was destroyed.
    Destroyed,
    /// The driver rejected the call.
    Failed,
}

} // verus!
