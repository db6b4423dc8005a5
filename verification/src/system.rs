use crate::arch::Arch;
use crate::call::KernelCall;
use crate::error::MshvError;
use crate::msr::{supported_msr_indices, supported_msr_list, MsrList, SUPPORTED_MSR_COUNT};
use crate::partition::{CreatePartition, VmType};
use crate::vm::{CreationPlan, CreationState, VmCreation};
use vstd::prelude::*;

verus! {

/// Open flag: calls on the descriptor do not block. The value is that of
/// Linux on x86_64 and aarch64.
pub const O_NONBLOCK: i32 = 0x800;

/// Open flag: the descriptor is closed when the process executes another
/// program. The value is that of Linux on x86_64 and aarch64.
pub const O_CLOEXEC: i32 = 0x8_0000;

/// The flags that the hypervisor device is opened with: always non-blocking,
/// and closed on exec if that is asked for.
pub open spec fn open_flags(close_on_exec: bool) -> i32 {
    O_NONBLOCK | if close_on_exec {
        O_CLOEXEC
    } else {
        0
    }
}

/// A session with the hypervisor: the descriptor of the opened device, and the
/// architecture that the session runs on. Whoever holds the session owns the
/// descriptor.
#[derive(Debug)]
pub struct Mshv {
    hv: i32,
    arch: Arch,
}

impl Mshv {
    /// The descriptor of the device.
    pub closed spec fn fd(&self) -> i32 {
        self.hv
    }

    /// The architecture that the session runs on.
    pub closed spec fn arch(&self) -> Arch {
        self.arch
    }

    /// The call that opens the device for a new session. The descriptor will
    /// not be passed on to programs that the process executes.
    pub fn new() -> (call: KernelCall)
        ensures
            call == (KernelCall::OpenDevice { flags: open_flags(true) }),
    {
        Mshv::open_with_cloexec(true)
    }

    /// The session on a descriptor that is already open.
    ///
    /// The descriptor must be an open descriptor of the hypervisor device, and
    /// nothing else may use it from now on: the session takes it for its own.
    /// Nothing checks this.
    pub fn new_with_fd_number(fd: i32, arch: Arch) -> (hv: Mshv)
        ensures
            hv.fd() == fd,
            hv.arch() == arch,
    {
        Mshv { hv: fd, arch }
    }

    /// The call that opens the device. Its status, if not negative, is the
    /// descriptor.
    pub fn open_with_cloexec(close_on_exec: bool) -> (call: KernelCall)
        ensures
            call == (KernelCall::OpenDevice { flags: open_flags(close_on_exec) }),
    {
        let open_flags: i32 = O_NONBLOCK | if close_on_exec {
            O_CLOEXEC
        } else {
            0
        };
        KernelCall::OpenDevice { flags: open_flags }
    }

    /// The descriptor of the device.
    pub fn as_raw_fd(&self) -> (fd: i32)
        ensures
            fd == self.fd(),
    {
        self.hv
    }

    /// The architecture that the session runs on.
    pub fn architecture(&self) -> (arch: Arch)
        ensures
            arch == self.arch(),
    {
        self.arch
    }

    /// The call that creates a partition from `args`, and nothing more: the
    /// partition is neither configured nor initialized. Its status, if not
    /// negative, is the descriptor of the new partition.
    pub fn create_vm_with_args(&self, args: &CreatePartition) -> (call: KernelCall)
        ensures
            call == (KernelCall::CreatePartition { device: self.fd(), args: *args }),
    {
        KernelCall::CreatePartition { device: self.hv, args: *args }
    }

    /// The call that reads the property `property_code` of the host
    /// partition. Its status, if not negative, is the property's value.
    pub fn get_host_partition_property(&self, property_code: u64) -> (call: KernelCall)
        ensures
            call == (KernelCall::GetHostPartitionProperty { device: self.fd(), property_code }),
    {
        KernelCall::GetHostPartitionProperty { device: self.hv, property_code }
    }

    /// Starts the creation of a virtual machine of kind `vm_type` that ends
    /// with an initialized partition. The partition is created with the
    /// default flags and with the isolation mode of `vm_type`; the synthetic
    /// processor features of the session's architecture are set on it before
    /// it is initialized.
    pub fn create_vm_with_type(&self, vm_type: VmType) -> (creation: VmCreation)
        ensures
            creation.plan() == CreationPlan::for_vm(self.fd(), vm_type, self.arch()),
            creation.state() == CreationState::Unopened,
            creation.replies() == Seq::<Result<i32, MshvError>>::empty(),
    {
        VmCreation::new(self.hv, vm_type, self.arch)
    }

    /// Starts the creation of an ordinary virtual machine.
    pub fn create_vm(&self) -> (creation: VmCreation)
        ensures
            creation.plan() == CreationPlan::for_vm(self.fd(), VmType::Normal, self.arch()),
            creation.state() == CreationState::Unopened,
            creation.replies() == Seq::<Result<i32, MshvError>>::empty(),
    {
        self.create_vm_with_type(VmType::Normal)
    }

    /// The registers that are supported on the virtual processors of this
    /// session's partitions. There are such registers on `X86_64` alone. The
    /// list is always the same and nothing is asked of the kernel for it.
    pub fn get_msr_index_list(&self) -> (list: Result<MsrList, MshvError>)
        requires
            self.arch() == Arch::X86_64,
        ensures
            list is Ok,
            list->Ok_0@ == supported_msr_indices(),
            list->Ok_0@.len() == SUPPORTED_MSR_COUNT,
    {
        Ok(supported_msr_list())
    }
}

/// The device is always opened non-blocking, and closed on exec exactly if
/// that was asked for; no other flag is set.
pub proof fn lemma_open_flags(close_on_exec: bool)
    ensures
        open_flags(close_on_exec) & O_NONBLOCK == O_NONBLOCK,
        open_flags(close_on_exec) & O_CLOEXEC != 0 <==> close_on_exec,
        open_flags(close_on_exec) & !(O_NONBLOCK | O_CLOEXEC) == 0,
        open_flags(true) == 0x8_0800,
        open_flags(false) == 0x800,
{
    assert((0x800i32 | 0x8_0000i32) & 0x800i32 == 0x800i32) by (bit_vector);
    assert((0x800i32 | 0i32) & 0x800i32 == 0x800i32) by (bit_vector);
    assert((0x800i32 | 0x8_0000i32) & 0x8_0000i32 != 0) by (bit_vector);
    assert((0x800i32 | 0i32) & 0x8_0000i32 == 0) by (bit_vector);
    assert((0x800i32 | 0x8_0000i32) & !(0x800i32 | 0x8_0000i32) == 0) by (bit_vector);
    assert((0x800i32 | 0i32) & !(0x800i32 | 0x8_0000i32) == 0) by (bit_vector);
    assert((0x800i32 | 0x8_0000i32) == 0x8_0800i32) by (bit_vector);
    assert((0x800i32 | 0i32) == 0x800i32) by (bit_vector);
}

} // verus!
