//! The failures of the bootstrap. Every one is fatal for the run: nothing is
//! retried, and teardown of what was created follows.

use vstd::prelude::*;

verus! {

/// Why no device and queue family could be selected.
#[derive(Clone, Copy, Debug, PartialEq, Eq, Structural)]
pub enum NoSuitableDeviceError {
    /// The instance exposes no physical device.
    NoPhysicalDevice,
    /// The selected device has no queue family with graphics, compute and
    /// transfer at once.
    NoCombinedQueueFamily,
}

/// What ended a run early.
#[derive(Clone, Copy, Debug, PartialEq, Eq, Structural)]
pub enum BootstrapError {
    /// The driver's loader could not be resolved.
    Load,
    /// The driver refused to create the instance.
    InstanceCreation,
    /// No device, or no qualifying queue family.
    NoSuitableDevice(NoSuitableDeviceError),
    /// The driver refused to create the logical device.
    DeviceCreation,
    /// The command pool or the command buffer could not be had.
    Allocation,
    /// Recording, submission or the wait for the queue was rejected.
    Submission,
}

impl NoSuitableDeviceError {
    /// The text of [`NoSuitableDeviceError::message`].
    pub open spec fn spec_message(self) -> Seq<char> {
        match self {
            NoSuitableDeviceError::NoPhysicalDevice => "No physical devices available"@,
            NoSuitableDeviceError::NoCombinedQueueFamily => "No main queue available"@,
        }
    }

    /// A sentence for the user.
    pub fn message(&self) -> (text: &'static str)
        ensures
            text@ == self.spec_message(),
    {
        match self {
            NoSuitableDeviceError::NoPhysicalDevice => "No physical devices available",
            NoSuitableDeviceError::NoCombinedQueueFamily => "No main queue available",
        }
    }
}

impl BootstrapError {
    /// A sentence for the user.
    pub fn message(&self) -> (text: &'static str)
        ensures
            text@ == (match *self {
                BootstrapError::Load => "Vulkan loader unavailable"@,
                BootstrapError::InstanceCreation => "Instance creation failed"@,
                BootstrapError::NoSuitableDevice(reason) => reason.spec_message(),
                BootstrapError::DeviceCreation => "Device creation failed"@,
                BootstrapError::Allocation => "Command buffer allocation failed"@,
                BootstrapError::Submission => "Submission failed"@,
            }),
    {
        match self {
            BootstrapError::Load => "Vulkan loader unavailable",
            BootstrapError::InstanceCreation => "Instance creation failed",
            BootstrapError::NoSuitableDevice(reason) => reason.message(),
            BootstrapError::DeviceCreation => "Device creation failed",
            BootstrapError::Allocation => "Command buffer allocation failed",
            BootstrapError::Submission => "Submission failed",
        }
    }
}

} // verus!
