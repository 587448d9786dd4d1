//! The few values and predicates that the selection policy takes from the
//! `ash` bindings. Each function here is believed, not proved: its contract
//! restates what the named item of `ash::vk` is defined to be.

use vstd::prelude::*;

verus! {

/// `ash::vk::QueueFlags::GRAPHICS`, as its raw bit.
///
/// Claims that the constant is the lowest bit, `0b1`.
#[verifier::external_body]
pub(crate) fn queue_graphics_bit() -> (bit: u32)
    ensures
        bit == 0x1u32,
{
    ash::vk::QueueFlags::GRAPHICS.as_raw()
}

/// `ash::vk::QueueFlags::COMPUTE`, as its raw bit.
///
/// Claims that the constant is `0b10`.
#[verifier::external_body]
pub(crate) fn queue_compute_bit() -> (bit: u32)
    ensures
        bit == 0x2u32,
{
    ash::vk::QueueFlags::COMPUTE.as_raw()
}

/// `ash::vk::QueueFlags::TRANSFER`, as its raw bit.
///
/// Claims that the constant is `0b100`.
#[verifier::external_body]
pub(crate) fn queue_transfer_bit() -> (bit: u32)
    ensures
        bit == 0x4u32,
{
    ash::vk::QueueFlags::TRANSFER.as_raw()
}

/// `ash::vk::QueueFlags::contains`, on raw flag words.
///
/// Claims that `contains` answers whether every bit of `required` is set in
/// `flags`; the two `from_raw` calls only wrap the words.
#[verifier::external_body]
pub(crate) fn queue_flags_contain(flags: u32, required: u32) -> (all: bool)
    ensures
        all == (flags & required == required),
{
    ash::vk::QueueFlags::from_raw(flags).contains(ash::vk::QueueFlags::from_raw(required))
}

/// `ash::vk::PhysicalDeviceType::DISCRETE_GPU`, as its raw value.
///
/// Claims that the constant is `2`.
#[verifier::external_body]
pub(crate) fn discrete_gpu_type() -> (raw: i32)
    ensures
        raw == 2i32,
{
    ash::vk::PhysicalDeviceType::DISCRETE_GPU.as_raw()
}

/// `ash::vk::PhysicalDeviceType::INTEGRATED_GPU`, as its raw value.
///
/// Claims that the constant is `1`.
#[verifier::external_body]
pub(crate) fn integrated_gpu_type() -> (raw: i32)
    ensures
        raw == 1i32,
{
    ash::vk::PhysicalDeviceType::INTEGRATED_GPU.as_raw()
}

/// `ash::vk::make_api_version`.
///
/// Claims that the four fields are packed as variant, major, minor, patch
/// from the top bit down, at shifts 29, 22 and 12, bits that do not fit being
/// dropped by the shifts.
#[verifier::external_body]
pub(crate) fn make_api_version(variant: u32, major: u32, minor: u32, patch: u32) -> (version: u32)
    ensures
        version == (variant << 29u32) | (major << 22u32) | (minor << 12u32) | patch,
{
    ash::vk::make_api_version(variant, major, minor, patch)
}

} // verus!
