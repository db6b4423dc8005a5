use mshv_bindings::hv_partition_synthetic_processor_features__bindgen_ty_1 as BindingsFeatures;
use mshv_ioctls::arch::Arch;
use mshv_ioctls::features::{
    baseline_feature_list, SyntheticFeature, SyntheticProcessorFeatures, NAMED_FEATURES_MASK,
};

const ALL_FEATURES: [SyntheticFeature; 14] = [
    SyntheticFeature::HypervisorPresent,
    SyntheticFeature::Hv1,
    SyntheticFeature::AccessPartitionReferenceCounter,
    SyntheticFeature::AccessSynicRegs,
    SyntheticFeature::AccessSyntheticTimerRegs,
    SyntheticFeature::AccessPartitionReferenceTsc,
    SyntheticFeature::AccessFrequencyRegs,
    SyntheticFeature::AccessIntrCtrlRegs,
    SyntheticFeature::AccessVpIndex,
    SyntheticFeature::AccessHypercallRegs,
    SyntheticFeature::AccessGuestIdleReg,
    SyntheticFeature::TbFlushHypercalls,
    SyntheticFeature::SyntheticClusterIpi,
    SyntheticFeature::DirectSyntheticTimers,
];

/// Switches one feature on in the bit field of the bindings.
fn set_in_bindings(bits: &mut BindingsFeatures, feature: SyntheticFeature) {
    match feature {
        SyntheticFeature::HypervisorPresent => bits.set_hypervisor_present(1),
        SyntheticFeature::Hv1 => bits.set_hv1(1),
        SyntheticFeature::AccessPartitionReferenceCounter => {
            bits.set_access_partition_reference_counter(1)
        }
        SyntheticFeature::AccessSynicRegs => bits.set_access_synic_regs(1),
        SyntheticFeature::AccessSyntheticTimerRegs => bits.set_access_synthetic_timer_regs(1),
        SyntheticFeature::AccessPartitionReferenceTsc => {
            bits.set_access_partition_reference_tsc(1)
        }
        SyntheticFeature::AccessFrequencyRegs => bits.set_access_frequency_regs(1),
        SyntheticFeature::AccessIntrCtrlRegs => bits.set_access_intr_ctrl_regs(1),
        SyntheticFeature::AccessVpIndex => bits.set_access_vp_index(1),
        SyntheticFeature::AccessHypercallRegs => bits.set_access_hypercall_regs(1),
        SyntheticFeature::AccessGuestIdleReg => bits.set_access_guest_idle_reg(1),
        SyntheticFeature::TbFlushHypercalls => bits.set_tb_flush_hypercalls(1),
        SyntheticFeature::SyntheticClusterIpi => bits.set_synthetic_cluster_ipi(1),
        SyntheticFeature::DirectSyntheticTimers => bits.set_direct_synthetic_timers(1),
    }
}

/// The 64-bit value of the bit field of the bindings.
fn value_in_bindings(bits: &BindingsFeatures) -> u64 {
    bits._bitfield_1.get(0, 64)
}

#[test]
fn each_feature_has_the_bit_of_the_bindings() {
    for feature in ALL_FEATURES {
        let mut bits = BindingsFeatures::default();
        set_in_bindings(&mut bits, feature);
        assert_eq!(feature.bit_mask(), value_in_bindings(&bits), "{:?}", feature);
        assert_eq!(1u64 << feature.bit_index(), feature.bit_mask());
    }
}

#[test]
fn feature_bits_are_the_documented_positions() {
    assert_eq!(SyntheticFeature::HypervisorPresent.bit_index(), 0);
    assert_eq!(SyntheticFeature::Hv1.bit_index(), 1);
    assert_eq!(SyntheticFeature::AccessPartitionReferenceCounter.bit_index(), 3);
    assert_eq!(SyntheticFeature::AccessSynicRegs.bit_index(), 4);
    assert_eq!(SyntheticFeature::AccessSyntheticTimerRegs.bit_index(), 5);
    assert_eq!(SyntheticFeature::AccessIntrCtrlRegs.bit_index(), 6);
    assert_eq!(SyntheticFeature::AccessHypercallRegs.bit_index(), 7);
    assert_eq!(SyntheticFeature::AccessVpIndex.bit_index(), 8);
    assert_eq!(SyntheticFeature::AccessPartitionReferenceTsc.bit_index(), 9);
    assert_eq!(SyntheticFeature::AccessGuestIdleReg.bit_index(), 10);
    assert_eq!(SyntheticFeature::AccessFrequencyRegs.bit_index(), 11);
    assert_eq!(SyntheticFeature::DirectSyntheticTimers.bit_index(), 22);
    assert_eq!(SyntheticFeature::TbFlushHypercalls.bit_index(), 25);
    assert_eq!(SyntheticFeature::SyntheticClusterIpi.bit_index(), 26);
}

#[test]
fn baseline_is_what_the_bindings_build() {
    let mut bits = BindingsFeatures::default();
    bits.set_hypervisor_present(1);
    bits.set_hv1(1);
    bits.set_access_partition_reference_counter(1);
    bits.set_access_synic_regs(1);
    bits.set_access_synthetic_timer_regs(1);
    bits.set_access_partition_reference_tsc(1);
    bits.set_access_frequency_regs(1);
    bits.set_access_intr_ctrl_regs(1);
    bits.set_access_vp_index(1);
    bits.set_access_hypercall_regs(1);
    let without_idle: u64 = {
        let mut bits = bits;
        bits.set_tb_flush_hypercalls(1);
        bits.set_synthetic_cluster_ipi(1);
        bits.set_direct_synthetic_timers(1);
        value_in_bindings(&bits)
    };
    bits.set_access_guest_idle_reg(1);
    bits.set_tb_flush_hypercalls(1);
    bits.set_synthetic_cluster_ipi(1);
    bits.set_direct_synthetic_timers(1);
    let with_idle: u64 = value_in_bindings(&bits);

    assert_eq!(SyntheticProcessorFeatures::baseline(Arch::X86_64).as_uint64(), with_idle);
    assert_eq!(SyntheticProcessorFeatures::baseline(Arch::Aarch64).as_uint64(), without_idle);
}

#[test]
fn baseline_mask_values() {
    assert_eq!(SyntheticProcessorFeatures::baseline(Arch::X86_64).as_uint64(), 0x0640_0FFB);
    assert_eq!(SyntheticProcessorFeatures::baseline(Arch::Aarch64).as_uint64(), 0x0640_0BFB);
}

#[test]
fn baseline_lists_features_in_the_order_they_are_switched_on() {
    assert_eq!(baseline_feature_list(Arch::X86_64), ALL_FEATURES.to_vec());
    let mut without_idle = ALL_FEATURES.to_vec();
    without_idle.remove(10);
    assert_eq!(baseline_feature_list(Arch::Aarch64), without_idle);
    assert_eq!(baseline_feature_list(Arch::X86_64).len(), 14);
    assert_eq!(baseline_feature_list(Arch::Aarch64).len(), 13);
}

#[test]
fn baseline_decodes_to_every_required_bit_and_no_other() {
    let features = SyntheticProcessorFeatures::baseline(Arch::X86_64);
    let mask: u64 = features.as_uint64();
    let decoded = SyntheticProcessorFeatures::from_uint64(mask);
    for feature in ALL_FEATURES {
        assert!(decoded.contains(feature), "{:?}", feature);
    }
    assert_eq!(decoded.unnamed_bits(), 0);
    let documented: [u64; 14] = [0, 1, 3, 4, 5, 6, 7, 8, 9, 10, 11, 22, 25, 26];
    for bit in 0..64u64 {
        let set = mask & (1u64 << bit) != 0;
        assert_eq!(set, documented.contains(&bit), "bit {}", bit);
    }
}

#[test]
fn baseline_on_aarch64_leaves_out_the_guest_idle_register() {
    let features = SyntheticProcessorFeatures::baseline(Arch::Aarch64);
    for feature in ALL_FEATURES {
        let expected = feature != SyntheticFeature::AccessGuestIdleReg;
        assert_eq!(features.contains(feature), expected, "{:?}", feature);
    }
    assert_eq!(features.unnamed_bits(), 0);
    let both = SyntheticProcessorFeatures::baseline(Arch::X86_64).as_uint64();
    assert_eq!(both & !features.as_uint64(), 1u64 << 10);
}

#[test]
fn no_feature_at_first() {
    let features = SyntheticProcessorFeatures::new();
    assert_eq!(features.as_uint64(), 0);
    for feature in ALL_FEATURES {
        assert!(!features.contains(feature));
    }
}

#[test]
fn set_switches_one_feature_on() {
    let mut features = SyntheticProcessorFeatures::new();
    features.set(SyntheticFeature::AccessVpIndex);
    assert_eq!(features.as_uint64(), 0x100);
    assert!(features.contains(SyntheticFeature::AccessVpIndex));
    assert!(!features.contains(SyntheticFeature::Hv1));
    features.set(SyntheticFeature::Hv1);
    assert_eq!(features.as_uint64(), 0x102);
    features.set(SyntheticFeature::Hv1);
    assert_eq!(features.as_uint64(), 0x102);
}

#[test]
fn from_features_combines_whatever_the_order() {
    let one = SyntheticProcessorFeatures::from_features(&[
        SyntheticFeature::Hv1,
        SyntheticFeature::SyntheticClusterIpi,
        SyntheticFeature::AccessSynicRegs,
    ]);
    let other = SyntheticProcessorFeatures::from_features(&[
        SyntheticFeature::AccessSynicRegs,
        SyntheticFeature::Hv1,
        SyntheticFeature::SyntheticClusterIpi,
        SyntheticFeature::Hv1,
    ]);
    assert_eq!(one.as_uint64(), (1 << 1) | (1 << 26) | (1 << 4));
    assert_eq!(one, other);
    assert_eq!(SyntheticProcessorFeatures::from_features(&[]).as_uint64(), 0);
    assert_eq!(
        SyntheticProcessorFeatures::from_features(&ALL_FEATURES).as_uint64(),
        NAMED_FEATURES_MASK
    );
}

#[test]
fn unnamed_bits_are_those_of_no_feature() {
    assert_eq!(SyntheticProcessorFeatures::from_uint64(u64::MAX).unnamed_bits(), !0x0640_0FFBu64);
    assert_eq!(SyntheticProcessorFeatures::from_uint64(0x4).unnamed_bits(), 0x4);
    assert_eq!(SyntheticProcessorFeatures::from_uint64(0x0640_0FFB).unnamed_bits(), 0);
    assert_eq!(NAMED_FEATURES_MASK, 0x0640_0FFB);
}
