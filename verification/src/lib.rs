//! Bootstrap of a GPU execution context, as a verified decision core.
//!
//! The crate decides; the caller performs. Which physical device and queue
//! family to use, which driver call comes next, where the command buffer
//! stands, and what to destroy after success or failure, and in which order,
//! are computed and proved here. The driver calls themselves are made by the
//! caller, one per [`protocol::Action`], and each outcome is handed back as
//! a [`protocol::Event`].
//!
//! - [`descriptor`] and [`selector`]: what an enumeration reports, and the
//!   choice of device and queue family from it.
//! - [`handle`]: the records of the resources of a run.
//! - [`protocol`]: actions and events.
//! - [`script`]: the order of the calls of a run, for every way it can go.
//! - [`lifecycle`]: the state of a run, its transition, and the manager that
//!   a caller drives.
//! - [`laws`]: what holds of every run.
//! - [`error`]: the failures.

pub mod vulkan;
pub mod descriptor;
pub mod error;
pub mod selector;
pub mod handle;
pub mod protocol;
pub mod script;
pub mod lifecycle;
pub mod laws;
