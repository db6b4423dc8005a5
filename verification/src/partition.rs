use vstd::prelude::*;

verus! {

/// Bit of the creation flags: the partition has local interrupt controllers.
pub const MSHV_PT_BIT_LAPIC: u32 = 0;

/// Bit of the creation flags: the local interrupt controllers run in x2APIC
/// mode.
pub const MSHV_PT_BIT_X2APIC: u32 = 1;

/// Bit of the creation flags: guest physical memory may be mapped with super
/// pages.
pub const MSHV_PT_BIT_GPA_SUPER_PAGES: u32 = 2;

/// Isolation mode: the partition is not isolated from the host.
pub const MSHV_PT_ISOLATION_NONE: u32 = 0;

/// Isolation mode: the partition is isolated by SEV-SNP.
pub const MSHV_PT_ISOLATION_SNP: u32 = 1;

/// Code of the partition property that holds the synthetic processor
/// features. It can be set only between creation and initialization.
pub const HV_PARTITION_PROPERTY_SYNTHETIC_PROC_FEATURES: u32 = 0x0001_0001;

/// The kind of virtual machine that a partition is created for.
#[derive(Clone, Copy, Debug, PartialEq, Eq, Structural)]
pub enum VmType {
    /// An ordinary virtual machine.
    Normal,
    /// A confidential virtual machine under SEV-SNP.
    Snp,
}

/// What the kernel is handed when a partition is created.
#[derive(Clone, Copy, Debug, PartialEq, Eq, Structural)]
pub struct CreatePartition {
    /// The capabilities of the partition, one bit each.
    pub pt_flags: u64,
    /// The isolation mode.
    pub pt_isolation: u64,
}

/// The flags that every partition is created with: local interrupt
/// controllers, x2APIC mode and super pages.
pub open spec fn default_flags() -> u64 {
    (1u64 << MSHV_PT_BIT_LAPIC) | (1u64 << MSHV_PT_BIT_X2APIC) | (1u64
        << MSHV_PT_BIT_GPA_SUPER_PAGES)
}

/// The isolation mode that goes with a kind of virtual machine.
pub open spec fn isolation_of(vm_type: VmType) -> u64 {
    match vm_type {
        VmType::Normal => MSHV_PT_ISOLATION_NONE as u64,
        VmType::Snp => MSHV_PT_ISOLATION_SNP as u64,
    }
}

impl CreatePartition {
    /// What a partition for a virtual machine of kind `vm_type` is created
    /// with.
    pub open spec fn for_type(vm_type: VmType) -> CreatePartition {
        CreatePartition { pt_flags: default_flags(), pt_isolation: isolation_of(vm_type) }
    }

    /// What a partition for a virtual machine of kind `vm_type` is created
    /// with: the default flags, and the isolation mode of that kind.
    pub fn with_type(vm_type: VmType) -> (args: CreatePartition)
        ensures
            args == CreatePartition::for_type(vm_type),
    {
        let pt_flags: u64 = (1u64 << MSHV_PT_BIT_LAPIC) | (1u64 << MSHV_PT_BIT_X2APIC) | (1u64
            << MSHV_PT_BIT_GPA_SUPER_PAGES);
        let pt_isolation: u64 = match vm_type {
            VmType::Normal => MSHV_PT_ISOLATION_NONE as u64,
            VmType::Snp => MSHV_PT_ISOLATION_SNP as u64,
        };
        CreatePartition { pt_flags, pt_isolation }
    }
}

impl Default for CreatePartition {
    /// No flag and no isolation.
    fn default() -> (args: CreatePartition)
        ensures
            args == (CreatePartition { pt_flags: 0, pt_isolation: 0 }),
    {
        CreatePartition { pt_flags: 0, pt_isolation: 0 }
    }
}

/// The default flags are the three lowest bits and nothing else.
pub proof fn lemma_default_flags()
    ensures
        default_flags() == 7,
        forall|bit: u64|
            bit < 64 ==> (#[trigger] (default_flags() & (1u64 << bit)) != 0 <==> bit
                == MSHV_PT_BIT_LAPIC || bit == MSHV_PT_BIT_X2APIC || bit
                == MSHV_PT_BIT_GPA_SUPER_PAGES),
{
    assert((1u64 << 0u32) | (1u64 << 1u32) | (1u64 << 2u32) == 7) by (bit_vector);
    assert forall|bit: u64| bit < 64 implies (#[trigger] (7u64 & (1u64 << bit)) != 0 <==> bit == 0
        || bit == 1 || bit == 2) by {
        assert(bit < 64 ==> ((7u64 & (1u64 << bit)) != 0 <==> bit == 0 || bit == 1 || bit == 2))
            by (bit_vector);
    }
}

/// A virtual machine under SEV-SNP is isolated by it, an ordinary one is not
/// isolated; both are created with the same flags.
pub proof fn lemma_isolation_follows_type(vm_type: VmType)
    ensures
        CreatePartition::for_type(vm_type).pt_isolation == MSHV_PT_ISOLATION_SNP <==> vm_type
            == VmType::Snp,
        CreatePartition::for_type(vm_type).pt_isolation == MSHV_PT_ISOLATION_NONE <==> vm_type
            == VmType::Normal,
        CreatePartition::for_type(vm_type).pt_flags == default_flags(),
{
}

} // verus!
