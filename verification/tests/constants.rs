use mshv_ioctls::call::MSHV_DEVICE_PATH;
use mshv_ioctls::msr;
use mshv_ioctls::partition::{
    CreatePartition, HV_PARTITION_PROPERTY_SYNTHETIC_PROC_FEATURES, MSHV_PT_BIT_GPA_SUPER_PAGES,
    MSHV_PT_BIT_LAPIC, MSHV_PT_BIT_X2APIC, MSHV_PT_ISOLATION_NONE, MSHV_PT_ISOLATION_SNP,
};
use mshv_ioctls::system::{O_CLOEXEC, O_NONBLOCK};

#[test]
fn open_flags_are_those_of_libc() {
    assert_eq!(O_NONBLOCK, libc::O_NONBLOCK);
    assert_eq!(O_CLOEXEC, libc::O_CLOEXEC);
}

#[test]
fn device_path_is_dev_mshv() {
    assert_eq!(MSHV_DEVICE_PATH, "/dev/mshv");
}

#[test]
fn partition_constants_are_those_of_the_bindings() {
    assert_eq!(MSHV_PT_BIT_LAPIC, mshv_bindings::MSHV_PT_BIT_LAPIC);
    assert_eq!(MSHV_PT_BIT_X2APIC, mshv_bindings::MSHV_PT_BIT_X2APIC);
    assert_eq!(MSHV_PT_BIT_GPA_SUPER_PAGES, mshv_bindings::MSHV_PT_BIT_GPA_SUPER_PAGES);
    assert_eq!(MSHV_PT_ISOLATION_NONE, mshv_bindings::MSHV_PT_ISOLATION_NONE);
    assert_eq!(MSHV_PT_ISOLATION_SNP, mshv_bindings::MSHV_PT_ISOLATION_SNP);
    assert_eq!(
        HV_PARTITION_PROPERTY_SYNTHETIC_PROC_FEATURES,
        mshv_bindings::hv_partition_property_code_HV_PARTITION_PROPERTY_SYNTHETIC_PROC_FEATURES
    );
}

#[test]
fn default_creation_payload_is_that_of_the_bindings() {
    let ours = CreatePartition::default();
    let theirs = mshv_bindings::mshv_create_partition::default();
    assert_eq!(ours.pt_flags, theirs.pt_flags);
    assert_eq!(ours.pt_isolation, theirs.pt_isolation);
}

#[test]
fn limits_are_those_of_the_bindings() {
    assert_eq!(msr::MAX_MSR_ENTRIES, mshv_bindings::MAX_MSR_ENTRIES);
    assert_eq!(msr::SUPPORTED_MSR_COUNT, 64);
}

#[test]
fn architectural_registers_are_those_of_the_bindings() {
    assert_eq!(msr::IA32_MSR_TSC, mshv_bindings::IA32_MSR_TSC);
    assert_eq!(msr::IA32_MSR_EFER, mshv_bindings::IA32_MSR_EFER);
    assert_eq!(msr::IA32_MSR_KERNEL_GS_BASE, mshv_bindings::IA32_MSR_KERNEL_GS_BASE);
    assert_eq!(msr::IA32_MSR_APIC_BASE, mshv_bindings::IA32_MSR_APIC_BASE);
    assert_eq!(msr::IA32_MSR_PAT, mshv_bindings::IA32_MSR_PAT);
    assert_eq!(msr::IA32_MSR_SYSENTER_CS, mshv_bindings::IA32_MSR_SYSENTER_CS);
    assert_eq!(msr::IA32_MSR_SYSENTER_ESP, mshv_bindings::IA32_MSR_SYSENTER_ESP);
    assert_eq!(msr::IA32_MSR_SYSENTER_EIP, mshv_bindings::IA32_MSR_SYSENTER_EIP);
    assert_eq!(msr::IA32_MSR_STAR, mshv_bindings::IA32_MSR_STAR);
    assert_eq!(msr::IA32_MSR_LSTAR, mshv_bindings::IA32_MSR_LSTAR);
    assert_eq!(msr::IA32_MSR_CSTAR, mshv_bindings::IA32_MSR_CSTAR);
    assert_eq!(msr::IA32_MSR_SFMASK, mshv_bindings::IA32_MSR_SFMASK);
    assert_eq!(msr::IA32_MSR_TSC_AUX, mshv_bindings::IA32_MSR_TSC_AUX);
    assert_eq!(msr::IA32_MSR_DEBUG_CTL, mshv_bindings::IA32_MSR_DEBUG_CTL);
    assert_eq!(msr::IA32_MSR_BNDCFGS, mshv_bindings::IA32_MSR_BNDCFGS);
    assert_eq!(msr::IA32_MSR_SPEC_CTRL, mshv_bindings::IA32_MSR_SPEC_CTRL);
    assert_eq!(msr::IA32_MSR_TSC_ADJUST, mshv_bindings::IA32_MSR_TSC_ADJUST);
}

#[test]
fn memory_type_range_registers_are_those_of_the_bindings() {
    assert_eq!(msr::IA32_MSR_MTRR_DEF_TYPE, mshv_bindings::IA32_MSR_MTRR_DEF_TYPE);
    assert_eq!(msr::IA32_MSR_MTRR_PHYSBASE0, mshv_bindings::IA32_MSR_MTRR_PHYSBASE0);
    assert_eq!(msr::IA32_MSR_MTRR_PHYSMASK0, mshv_bindings::IA32_MSR_MTRR_PHYSMASK0);
    assert_eq!(msr::IA32_MSR_MTRR_PHYSBASE1, mshv_bindings::IA32_MSR_MTRR_PHYSBASE1);
    assert_eq!(msr::IA32_MSR_MTRR_PHYSMASK1, mshv_bindings::IA32_MSR_MTRR_PHYSMASK1);
    assert_eq!(msr::IA32_MSR_MTRR_PHYSBASE2, mshv_bindings::IA32_MSR_MTRR_PHYSBASE2);
    assert_eq!(msr::IA32_MSR_MTRR_PHYSMASK2, mshv_bindings::IA32_MSR_MTRR_PHYSMASK2);
    assert_eq!(msr::IA32_MSR_MTRR_PHYSBASE3, mshv_bindings::IA32_MSR_MTRR_PHYSBASE3);
    assert_eq!(msr::IA32_MSR_MTRR_PHYSMASK3, mshv_bindings::IA32_MSR_MTRR_PHYSMASK3);
    assert_eq!(msr::IA32_MSR_MTRR_PHYSBASE4, mshv_bindings::IA32_MSR_MTRR_PHYSBASE4);
    assert_eq!(msr::IA32_MSR_MTRR_PHYSMASK4, mshv_bindings::IA32_MSR_MTRR_PHYSMASK4);
    assert_eq!(msr::IA32_MSR_MTRR_PHYSBASE5, mshv_bindings::IA32_MSR_MTRR_PHYSBASE5);
    assert_eq!(msr::IA32_MSR_MTRR_PHYSMASK5, mshv_bindings::IA32_MSR_MTRR_PHYSMASK5);
    assert_eq!(msr::IA32_MSR_MTRR_PHYSBASE6, mshv_bindings::IA32_MSR_MTRR_PHYSBASE6);
    assert_eq!(msr::IA32_MSR_MTRR_PHYSMASK6, mshv_bindings::IA32_MSR_MTRR_PHYSMASK6);
    assert_eq!(msr::IA32_MSR_MTRR_PHYSBASE7, mshv_bindings::IA32_MSR_MTRR_PHYSBASE7);
    assert_eq!(msr::IA32_MSR_MTRR_PHYSMASK7, mshv_bindings::IA32_MSR_MTRR_PHYSMASK7);
    assert_eq!(msr::IA32_MSR_MTRR_FIX64K_00000, mshv_bindings::IA32_MSR_MTRR_FIX64K_00000);
    assert_eq!(msr::IA32_MSR_MTRR_FIX16K_80000, mshv_bindings::IA32_MSR_MTRR_FIX16K_80000);
    assert_eq!(msr::IA32_MSR_MTRR_FIX16K_A0000, mshv_bindings::IA32_MSR_MTRR_FIX16K_A0000);
    assert_eq!(msr::IA32_MSR_MTRR_FIX4K_C0000, mshv_bindings::IA32_MSR_MTRR_FIX4K_C0000);
    assert_eq!(msr::IA32_MSR_MTRR_FIX4K_C8000, mshv_bindings::IA32_MSR_MTRR_FIX4K_C8000);
    assert_eq!(msr::IA32_MSR_MTRR_FIX4K_D0000, mshv_bindings::IA32_MSR_MTRR_FIX4K_D0000);
    assert_eq!(msr::IA32_MSR_MTRR_FIX4K_D8000, mshv_bindings::IA32_MSR_MTRR_FIX4K_D8000);
    assert_eq!(msr::IA32_MSR_MTRR_FIX4K_E0000, mshv_bindings::IA32_MSR_MTRR_FIX4K_E0000);
    assert_eq!(msr::IA32_MSR_MTRR_FIX4K_E8000, mshv_bindings::IA32_MSR_MTRR_FIX4K_E8000);
    assert_eq!(msr::IA32_MSR_MTRR_FIX4K_F0000, mshv_bindings::IA32_MSR_MTRR_FIX4K_F0000);
    assert_eq!(msr::IA32_MSR_MTRR_FIX4K_F8000, mshv_bindings::IA32_MSR_MTRR_FIX4K_F8000);
}

#[test]
fn synthetic_registers_are_those_of_the_bindings() {
    assert_eq!(msr::HV_X64_MSR_GUEST_OS_ID, mshv_bindings::HV_X64_MSR_GUEST_OS_ID);
    assert_eq!(msr::HV_X64_MSR_REFERENCE_TSC, mshv_bindings::HV_X64_MSR_REFERENCE_TSC);
    assert_eq!(msr::HV_X64_MSR_SCONTROL, mshv_bindings::HV_X64_MSR_SCONTROL);
    assert_eq!(msr::HV_X64_MSR_SIEFP, mshv_bindings::HV_X64_MSR_SIEFP);
    assert_eq!(msr::HV_X64_MSR_SIMP, mshv_bindings::HV_X64_MSR_SIMP);
    assert_eq!(msr::HV_X64_MSR_EOM, mshv_bindings::HV_X64_MSR_EOM);
    assert_eq!(msr::HV_X64_MSR_SINT0, mshv_bindings::HV_X64_MSR_SINT0);
    assert_eq!(msr::HV_X64_MSR_SINT1, mshv_bindings::HV_X64_MSR_SINT1);
    assert_eq!(msr::HV_X64_MSR_SINT2, mshv_bindings::HV_X64_MSR_SINT2);
    assert_eq!(msr::HV_X64_MSR_SINT3, mshv_bindings::HV_X64_MSR_SINT3);
    assert_eq!(msr::HV_X64_MSR_SINT4, mshv_bindings::HV_X64_MSR_SINT4);
    assert_eq!(msr::HV_X64_MSR_SINT5, mshv_bindings::HV_X64_MSR_SINT5);
    assert_eq!(msr::HV_X64_MSR_SINT6, mshv_bindings::HV_X64_MSR_SINT6);
    assert_eq!(msr::HV_X64_MSR_SINT7, mshv_bindings::HV_X64_MSR_SINT7);
    assert_eq!(msr::HV_X64_MSR_SINT8, mshv_bindings::HV_X64_MSR_SINT8);
    assert_eq!(msr::HV_X64_MSR_SINT9, mshv_bindings::HV_X64_MSR_SINT9);
    assert_eq!(msr::HV_X64_MSR_SINT10, mshv_bindings::HV_X64_MSR_SINT10);
    assert_eq!(msr::HV_X64_MSR_SINT11, mshv_bindings::HV_X64_MSR_SINT11);
    assert_eq!(msr::HV_X64_MSR_SINT12, mshv_bindings::HV_X64_MSR_SINT12);
    assert_eq!(msr::HV_X64_MSR_SINT13, mshv_bindings::HV_X64_MSR_SINT13);
    assert_eq!(msr::HV_X64_MSR_SINT14, mshv_bindings::HV_X64_MSR_SINT14);
    assert_eq!(msr::HV_X64_MSR_SINT15, mshv_bindings::HV_X64_MSR_SINT15);
}
