use crate::partition::CreatePartition;
use vstd::prelude::*;

verus! {

/// The path of the hypervisor device.
pub const MSHV_DEVICE_PATH: &'static str = "/dev/mshv";

/// One crossing into the kernel: what is asked, of which descriptor, with
/// which payload. The caller performs it and gets a status back, which is
/// negative when the call failed.
#[derive(Clone, Copy, Debug, PartialEq, Eq, Structural)]
pub enum KernelCall {
    /// Open the hypervisor device with these flags. The status is the new
    /// descriptor.
    OpenDevice { flags: i32 },
    /// Create a partition through the device. The status is the descriptor of
    /// the new partition.
    CreatePartition { device: i32, args: CreatePartition },
    /// Read a property of the host partition through the device. The status
    /// is the property's value.
    GetHostPartitionProperty { device: i32, property_code: u64 },
    /// Set a property of a partition.
    SetPartitionProperty { partition: i32, code: u32, value: u64 },
    /// Initialize a partition.
    InitializePartition { partition: i32 },
}

} // verus!
