//! Control plane of the Microsoft Hypervisor device, `/dev/mshv`, without the I/O.
//!
//! The library decides what is asked of the kernel and what its answers mean:
//! which flags open the device, what a partition is created with, which
//! property is set between creation and initialization, and which registers a
//! partition's processors support. Every crossing into the kernel is a value of
//! [`call::KernelCall`]; the caller performs it and hands the returned status
//! back.

pub mod arch;
pub mod call;
pub mod error;
pub mod features;
pub mod msr;
pub mod partition;
pub mod system;
pub mod vm;
