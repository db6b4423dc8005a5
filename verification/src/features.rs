use crate::arch::Arch;
use vstd::prelude::*;

verus! {

/// A capability that the hypervisor offers to the processors of a partition.
/// The synthetic processor feature mask of a partition has one bit for each.
#[derive(Clone, Copy, Debug, PartialEq, Eq, Structural)]
pub enum SyntheticFeature {
    /// The guest is told that it runs under a hypervisor.
    HypervisorPresent,
    /// The guest is told that the hypervisor speaks the Hv#1 interface.
    Hv1,
    /// Access to the partition reference counter.
    AccessPartitionReferenceCounter,
    /// Access to the registers of the synthetic interrupt controller.
    AccessSynicRegs,
    /// Access to the registers of the synthetic timers.
    AccessSyntheticTimerRegs,
    /// Access to the partition reference time stamp counter.
    AccessPartitionReferenceTsc,
    /// Access to the registers that report frequencies.
    AccessFrequencyRegs,
    /// Access to the interrupt control registers.
    AccessIntrCtrlRegs,
    /// Access to the register that holds the index of a virtual processor.
    AccessVpIndex,
    /// Access to the hypercall registers.
    AccessHypercallRegs,
    /// Access to the guest idle register.
    AccessGuestIdleReg,
    /// Hypercalls that flush translation buffers.
    TbFlushHypercalls,
    /// Synthetic inter-processor interrupts to a cluster.
    SyntheticClusterIpi,
    /// Synthetic timers that deliver their interrupt directly.
    DirectSyntheticTimers,
}

impl SyntheticFeature {
    /// The position of the feature's bit in the mask, counted from the least
    /// significant bit.
    pub open spec fn bit(self) -> u64 {
        match self {
            SyntheticFeature::HypervisorPresent => 0,
            SyntheticFeature::Hv1 => 1,
            SyntheticFeature::AccessPartitionReferenceCounter => 3,
            SyntheticFeature::AccessSynicRegs => 4,
            SyntheticFeature::AccessSyntheticTimerRegs => 5,
            SyntheticFeature::AccessIntrCtrlRegs => 6,
            SyntheticFeature::AccessHypercallRegs => 7,
            SyntheticFeature::AccessVpIndex => 8,
            SyntheticFeature::AccessPartitionReferenceTsc => 9,
            SyntheticFeature::AccessGuestIdleReg => 10,
            SyntheticFeature::AccessFrequencyRegs => 11,
            SyntheticFeature::DirectSyntheticTimers => 22,
            SyntheticFeature::TbFlushHypercalls => 25,
            SyntheticFeature::SyntheticClusterIpi => 26,
        }
    }

    /// The mask with the feature's bit alone.
    pub open spec fn mask(self) -> u64 {
        1u64 << self.bit()
    }

    /// Whether partitions on `arch` are offered the feature. The guest idle
    /// register is not offered on `Aarch64`; everything else is offered on
    /// both architectures.
    pub open spec fn offered_on(self, arch: Arch) -> bool {
        !(self == SyntheticFeature::AccessGuestIdleReg && arch == Arch::Aarch64)
    }

    /// The position of the feature's bit in the mask.
    pub fn bit_index(&self) -> (bit: u64)
        ensures
            bit == self.bit(),
            bit < 64,
    {
        match self {
            SyntheticFeature::HypervisorPresent => 0,
            SyntheticFeature::Hv1 => 1,
            SyntheticFeature::AccessPartitionReferenceCounter => 3,
            SyntheticFeature::AccessSynicRegs => 4,
            SyntheticFeature::AccessSyntheticTimerRegs => 5,
            SyntheticFeature::AccessIntrCtrlRegs => 6,
            SyntheticFeature::AccessHypercallRegs => 7,
            SyntheticFeature::AccessVpIndex => 8,
            SyntheticFeature::AccessPartitionReferenceTsc => 9,
            SyntheticFeature::AccessGuestIdleReg => 10,
            SyntheticFeature::AccessFrequencyRegs => 11,
            SyntheticFeature::DirectSyntheticTimers => 22,
            SyntheticFeature::TbFlushHypercalls => 25,
            SyntheticFeature::SyntheticClusterIpi => 26,
        }
    }

    /// The mask with the feature's bit alone.
    pub fn bit_mask(&self) -> (mask: u64)
        ensures
            mask == self.mask(),
    {
        1u64 << self.bit_index()
    }
}

/// The mask in which the bits of `features` are set and no others.
pub open spec fn combined(features: Seq<SyntheticFeature>) -> u64
    decreases features.len(),
{
    if features.len() == 0 {
        0
    } else {
        combined(features.drop_last()) | features.last().mask()
    }
}

/// Whether the bit at `bit` is set in `mask`.
pub open spec fn bit_is_set(mask: u64, bit: u64) -> bool {
    mask & (1u64 << bit) != 0
}

/// The features that a partition is created with on `arch`, in the order in
/// which they are switched on.
pub open spec fn baseline_features(arch: Arch) -> Seq<SyntheticFeature> {
    if arch == Arch::Aarch64 {
        seq![
            SyntheticFeature::HypervisorPresent,
            SyntheticFeature::Hv1,
            SyntheticFeature::AccessPartitionReferenceCounter,
            SyntheticFeature::AccessSynicRegs,
            SyntheticFeature::AccessSyntheticTimerRegs,
            SyntheticFeature::AccessPartitionReferenceTsc,
            SyntheticFeature::AccessFrequencyRegs,
            SyntheticFeature::AccessIntrCtrlRegs,
            SyntheticFeature::AccessVpIndex,
            SyntheticFeature::AccessHypercallRegs,
            SyntheticFeature::TbFlushHypercalls,
            SyntheticFeature::SyntheticClusterIpi,
            SyntheticFeature::DirectSyntheticTimers,
        ]
    } else {
        seq![
            SyntheticFeature::HypervisorPresent,
            SyntheticFeature::Hv1,
            SyntheticFeature::AccessPartitionReferenceCounter,
            SyntheticFeature::AccessSynicRegs,
            SyntheticFeature::AccessSyntheticTimerRegs,
            SyntheticFeature::AccessPartitionReferenceTsc,
            SyntheticFeature::AccessFrequencyRegs,
            SyntheticFeature::AccessIntrCtrlRegs,
            SyntheticFeature::AccessVpIndex,
            SyntheticFeature::AccessHypercallRegs,
            SyntheticFeature::AccessGuestIdleReg,
            SyntheticFeature::TbFlushHypercalls,
            SyntheticFeature::SyntheticClusterIpi,
            SyntheticFeature::DirectSyntheticTimers,
        ]
    }
}

/// The mask of the features that a partition is created with on `arch`.
pub open spec fn baseline_mask(arch: Arch) -> u64 {
    combined(baseline_features(arch))
}

/// The synthetic processor features of a partition, as the 64-bit value that
/// is handed to the hypervisor.
#[derive(Clone, Copy, Debug, PartialEq, Eq, Structural)]
pub struct SyntheticProcessorFeatures {
    as_uint64: u64,
}

impl SyntheticProcessorFeatures {
    /// The 64-bit value.
    pub closed spec fn bits(self) -> u64 {
        self.as_uint64
    }

    /// Whether the feature's bit is set.
    pub open spec fn has(self, feature: SyntheticFeature) -> bool {
        bit_is_set(self.bits(), feature.bit())
    }

    /// No feature at all.
    pub fn new() -> (features: Self)
        ensures
            features.bits() == 0,
    {
        SyntheticProcessorFeatures { as_uint64: 0 }
    }

    /// The features of a 64-bit value as the hypervisor reports one.
    pub fn from_uint64(value: u64) -> (features: Self)
        ensures
            features.bits() == value,
    {
        SyntheticProcessorFeatures { as_uint64: value }
    }

    /// Switches one feature on and leaves the others as they are.
    pub fn set(&mut self, feature: SyntheticFeature)
        ensures
            final(self).bits() == old(self).bits() | feature.mask(),
    {
        self.as_uint64 = self.as_uint64 | feature.bit_mask();
    }

    /// Whether the feature is switched on.
    pub fn contains(&self, feature: SyntheticFeature) -> (on: bool)
        ensures
            on == self.has(feature),
    {
        self.as_uint64 & feature.bit_mask() != 0
    }

    /// The 64-bit value that is handed to the hypervisor.
    pub fn as_uint64(&self) -> (value: u64)
        ensures
            value == self.bits(),
    {
        self.as_uint64
    }

    /// Switches on each of `features`, starting from none.
    pub fn from_features(features: &[SyntheticFeature]) -> (result: Self)
        ensures
            result.bits() == combined(features@),
    {
        let mut result = SyntheticProcessorFeatures::new();
        let mut i: usize = 0;
        while i < features.len()
            invariant
                i <= features@.len(),
                result.bits() == combined(features@.take(i as int)),
            decreases features@.len() - i,
        {
            result.set(features[i]);
            assert(features@.take(i + 1).drop_last() == features@.take(i as int));
            i += 1;
        }
        assert(features@.take(features@.len() as int) == features@);
        result
    }

    /// The features that a partition is created with on `arch`.
    pub fn baseline(arch: Arch) -> (features: Self)
        ensures
            features.bits() == baseline_mask(arch),
    {
        let list = baseline_feature_list(arch);
        SyntheticProcessorFeatures::from_features(list.as_slice())
    }

    /// The bits of the value that belong to no feature of
    /// [`SyntheticFeature`].
    pub fn unnamed_bits(&self) -> (rest: u64)
        ensures
            rest == self.bits() & !NAMED_FEATURES_MASK,
    {
        self.as_uint64 & !NAMED_FEATURES_MASK
    }
}

/// The mask with the bit of every feature of [`SyntheticFeature`].
pub const NAMED_FEATURES_MASK: u64 = 0x0640_0FFB;

/// The features that a partition is created with on `arch`, in the order in
/// which they are switched on.
pub fn baseline_feature_list(arch: Arch) -> (features: Vec<SyntheticFeature>)
    ensures
        features@ == baseline_features(arch),
{
    let mut features: Vec<SyntheticFeature> = Vec::new();
    features.push(SyntheticFeature::HypervisorPresent);
    features.push(SyntheticFeature::Hv1);
    features.push(SyntheticFeature::AccessPartitionReferenceCounter);
    features.push(SyntheticFeature::AccessSynicRegs);
    features.push(SyntheticFeature::AccessSyntheticTimerRegs);
    features.push(SyntheticFeature::AccessPartitionReferenceTsc);
    features.push(SyntheticFeature::AccessFrequencyRegs);
    features.push(SyntheticFeature::AccessIntrCtrlRegs);
    features.push(SyntheticFeature::AccessVpIndex);
    features.push(SyntheticFeature::AccessHypercallRegs);
    match arch {
        Arch::Aarch64 => {},
        Arch::X86_64 => {
            features.push(SyntheticFeature::AccessGuestIdleReg);
        },
    }
    features.push(SyntheticFeature::TbFlushHypercalls);
    features.push(SyntheticFeature::SyntheticClusterIpi);
    features.push(SyntheticFeature::DirectSyntheticTimers);
    assert(features@ =~= baseline_features(arch));
    features
}

/// The baseline mask as a number: bits 0, 1, 3 to 11, 22, 25 and 26, without
/// bit 10 on `Aarch64`.
pub proof fn lemma_baseline_mask_value(arch: Arch)
    ensures
        baseline_mask(arch) == (if arch == Arch::Aarch64 {
            0x0640_0BFBu64
        } else {
            0x0640_0FFBu64
        }),
{
    reveal_with_fuel(combined, 15);
    if arch == Arch::Aarch64 {
        assert((((((((((((((0u64 | (1u64 << 0u64)) | (1u64 << 1u64)) | (1u64 << 3u64)) | (1u64
            << 4u64)) | (1u64 << 5u64)) | (1u64 << 9u64)) | (1u64 << 11u64)) | (1u64 << 6u64)) | (
        1u64 << 8u64)) | (1u64 << 7u64)) | (1u64 << 25u64)) | (1u64 << 26u64)) | (1u64 << 22u64))
            == 0x0640_0BFBu64) by (bit_vector);
    } else {
        assert(((((((((((((((0u64 | (1u64 << 0u64)) | (1u64 << 1u64)) | (1u64 << 3u64)) | (1u64
            << 4u64)) | (1u64 << 5u64)) | (1u64 << 9u64)) | (1u64 << 11u64)) | (1u64 << 6u64)) | (
        1u64 << 8u64)) | (1u64 << 7u64)) | (1u64 << 10u64)) | (1u64 << 25u64)) | (1u64 << 26u64))
            | (1u64 << 22u64)) == 0x0640_0FFBu64) by (bit_vector);
    }
}

/// A bit is set in a combined mask exactly if it is the bit of one of the
/// features that were combined.
pub proof fn lemma_combined_bit(features: Seq<SyntheticFeature>, bit: u64)
    requires
        bit < 64,
    ensures
        bit_is_set(combined(features), bit) <==> exists|k: int|
            0 <= k < features.len() && #[trigger] features[k].bit() == bit,
    decreases features.len(),
{
    if features.len() == 0 {
        assert(0u64 & (1u64 << bit) == 0) by (bit_vector);
    } else {
        let init = features.drop_last();
        let rest = combined(init);
        let last = features.last().bit();
        lemma_combined_bit(init, bit);
        assert(((rest | (1u64 << last)) & (1u64 << bit) != 0) <==> (rest & (1u64 << bit) != 0
            || last == bit)) by (bit_vector)
            requires
                last < 64,
                bit < 64,
        ;
        if bit_is_set(combined(features), bit) {
            if last == bit {
                assert(features[features.len() - 1].bit() == bit);
            } else {
                let k = choose|k: int| 0 <= k < init.len() && #[trigger] init[k].bit() == bit;
                assert(features[k].bit() == bit);
            }
        }
        if exists|k: int| 0 <= k < features.len() && #[trigger] features[k].bit() == bit {
            let k = choose|k: int| 0 <= k < features.len() && #[trigger] features[k].bit() == bit;
            if k < init.len() {
                assert(init[k].bit() == bit);
            }
        }
    }
}

/// The baseline mask of an architecture has the bit of every feature that is
/// offered there, and no other bit.
pub proof fn lemma_baseline_bits(arch: Arch, bit: u64)
    requires
        bit < 64,
    ensures
        bit_is_set(baseline_mask(arch), bit) <==> exists|feature: SyntheticFeature|
            feature.offered_on(arch) && #[trigger] feature.bit() == bit,
{
    lemma_baseline_mask_value(arch);
    lemma_combined_bit(baseline_features(arch), bit);
    let s = baseline_features(arch);
    if bit_is_set(baseline_mask(arch), bit) {
        let k = choose|k: int| 0 <= k < s.len() && #[trigger] s[k].bit() == bit;
        assert(s[k].offered_on(arch));
    }
    if exists|feature: SyntheticFeature| feature.offered_on(arch) && #[trigger] feature.bit() == bit {
        let feature = choose|feature: SyntheticFeature|
            feature.offered_on(arch) && #[trigger] feature.bit() == bit;
        let k = choose|k: int| 0 <= k < s.len() && s[k] == feature;
        assert(s[0] == SyntheticFeature::HypervisorPresent);
        assert(s[1] == SyntheticFeature::Hv1);
        assert(s[2] == SyntheticFeature::AccessPartitionReferenceCounter);
        assert(s[3] == SyntheticFeature::AccessSynicRegs);
        assert(s[4] == SyntheticFeature::AccessSyntheticTimerRegs);
        assert(s[5] == SyntheticFeature::AccessPartitionReferenceTsc);
        assert(s[6] == SyntheticFeature::AccessFrequencyRegs);
        assert(s[7] == SyntheticFeature::AccessIntrCtrlRegs);
        assert(s[8] == SyntheticFeature::AccessVpIndex);
        assert(s[9] == SyntheticFeature::AccessHypercallRegs);
        assert(s[s.len() - 3] == SyntheticFeature::TbFlushHypercalls);
        assert(s[s.len() - 2] == SyntheticFeature::SyntheticClusterIpi);
        assert(s[s.len() - 1] == SyntheticFeature::DirectSyntheticTimers);
        if arch != Arch::Aarch64 {
            assert(s[10] == SyntheticFeature::AccessGuestIdleReg);
        }
        assert(0 <= k < s.len() && s[k].bit() == bit);
    }
}

/// The baseline of an architecture has exactly the features that are offered
/// there, and no bit that belongs to no feature.
pub proof fn lemma_baseline_features(arch: Arch, features: SyntheticProcessorFeatures)
    requires
        features.bits() == baseline_mask(arch),
    ensures
        forall|feature: SyntheticFeature| #[trigger]
            features.has(feature) <==> feature.offered_on(arch),
        features.bits() & !NAMED_FEATURES_MASK == 0,
{
    lemma_baseline_mask_value(arch);
    assert(0x0640_0BFBu64 & !0x0640_0FFBu64 == 0) by (bit_vector);
    assert(0x0640_0FFBu64 & !0x0640_0FFBu64 == 0) by (bit_vector);
    assert forall|feature: SyntheticFeature| #[trigger]
        features.has(feature) <==> feature.offered_on(arch) by {
        lemma_baseline_bits(arch, feature.bit());
        if features.has(feature) {
            let other = choose|other: SyntheticFeature|
                other.offered_on(arch) && #[trigger] other.bit() == feature.bit();
            assert(other == feature);
        }
    }
}

} // verus!
