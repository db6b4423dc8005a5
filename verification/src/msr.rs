use vstd::prelude::*;

verus! {

pub const IA32_MSR_TSC: u32 = 0x0000_0010;
pub const IA32_MSR_EFER: u32 = 0xC000_0080;
pub const IA32_MSR_KERNEL_GS_BASE: u32 = 0xC000_0102;
pub const IA32_MSR_APIC_BASE: u32 = 0x0000_001B;
pub const IA32_MSR_PAT: u32 = 0x0277;
pub const IA32_MSR_SYSENTER_CS: u32 = 0x0000_0174;
pub const IA32_MSR_SYSENTER_ESP: u32 = 0x0000_0175;
pub const IA32_MSR_SYSENTER_EIP: u32 = 0x0000_0176;
pub const IA32_MSR_STAR: u32 = 0xC000_0081;
pub const IA32_MSR_LSTAR: u32 = 0xC000_0082;
pub const IA32_MSR_CSTAR: u32 = 0xC000_0083;
pub const IA32_MSR_SFMASK: u32 = 0xC000_0084;

pub const IA32_MSR_MTRR_DEF_TYPE: u32 = 0x02FF;
pub const IA32_MSR_MTRR_PHYSBASE0: u32 = 0x0200;
pub const IA32_MSR_MTRR_PHYSMASK0: u32 = 0x0201;
pub const IA32_MSR_MTRR_PHYSBASE1: u32 = 0x0202;
pub const IA32_MSR_MTRR_PHYSMASK1: u32 = 0x0203;
pub const IA32_MSR_MTRR_PHYSBASE2: u32 = 0x0204;
pub const IA32_MSR_MTRR_PHYSMASK2: u32 = 0x0205;
pub const IA32_MSR_MTRR_PHYSBASE3: u32 = 0x0206;
pub const IA32_MSR_MTRR_PHYSMASK3: u32 = 0x0207;
pub const IA32_MSR_MTRR_PHYSBASE4: u32 = 0x0208;
pub const IA32_MSR_MTRR_PHYSMASK4: u32 = 0x0209;
pub const IA32_MSR_MTRR_PHYSBASE5: u32 = 0x020A;
pub const IA32_MSR_MTRR_PHYSMASK5: u32 = 0x020B;
pub const IA32_MSR_MTRR_PHYSBASE6: u32 = 0x020C;
pub const IA32_MSR_MTRR_PHYSMASK6: u32 = 0x020D;
pub const IA32_MSR_MTRR_PHYSBASE7: u32 = 0x020E;
pub const IA32_MSR_MTRR_PHYSMASK7: u32 = 0x020F;

pub const IA32_MSR_MTRR_FIX64K_00000: u32 = 0x0250;
pub const IA32_MSR_MTRR_FIX16K_80000: u32 = 0x0258;
pub const IA32_MSR_MTRR_FIX16K_A0000: u32 = 0x0259;
pub const IA32_MSR_MTRR_FIX4K_C0000: u32 = 0x0268;
pub const IA32_MSR_MTRR_FIX4K_C8000: u32 = 0x0269;
pub const IA32_MSR_MTRR_FIX4K_D0000: u32 = 0x026A;
pub const IA32_MSR_MTRR_FIX4K_D8000: u32 = 0x026B;
pub const IA32_MSR_MTRR_FIX4K_E0000: u32 = 0x026C;
pub const IA32_MSR_MTRR_FIX4K_E8000: u32 = 0x026D;
pub const IA32_MSR_MTRR_FIX4K_F0000: u32 = 0x026E;
pub const IA32_MSR_MTRR_FIX4K_F8000: u32 = 0x026F;

pub const IA32_MSR_TSC_AUX: u32 = 0xC000_0103;
pub const IA32_MSR_BNDCFGS: u32 = 0x0000_0D90;
pub const IA32_MSR_DEBUG_CTL: u32 = 0x01D9;
pub const IA32_MSR_SPEC_CTRL: u32 = 0x0000_0048;
pub const IA32_MSR_TSC_ADJUST: u32 = 0x0000_003B;

pub const HV_X64_MSR_GUEST_OS_ID: u32 = 0x4000_0000;
pub const HV_X64_MSR_REFERENCE_TSC: u32 = 0x4000_0021;
pub const HV_X64_MSR_SCONTROL: u32 = 0x4000_0080;
pub const HV_X64_MSR_SIEFP: u32 = 0x4000_0082;
pub const HV_X64_MSR_SIMP: u32 = 0x4000_0083;
pub const HV_X64_MSR_EOM: u32 = 0x4000_0084;
pub const HV_X64_MSR_SINT0: u32 = 0x4000_0090;
pub const HV_X64_MSR_SINT1: u32 = 0x4000_0091;
pub const HV_X64_MSR_SINT2: u32 = 0x4000_0092;
pub const HV_X64_MSR_SINT3: u32 = 0x4000_0093;
pub const HV_X64_MSR_SINT4: u32 = 0x4000_0094;
pub const HV_X64_MSR_SINT5: u32 = 0x4000_0095;
pub const HV_X64_MSR_SINT6: u32 = 0x4000_0096;
pub const HV_X64_MSR_SINT7: u32 = 0x4000_0097;
pub const HV_X64_MSR_SINT8: u32 = 0x4000_0098;
pub const HV_X64_MSR_SINT9: u32 = 0x4000_0099;
pub const HV_X64_MSR_SINT10: u32 = 0x4000_009A;
pub const HV_X64_MSR_SINT11: u32 = 0x4000_009B;
pub const HV_X64_MSR_SINT12: u32 = 0x4000_009C;
pub const HV_X64_MSR_SINT13: u32 = 0x4000_009D;
pub const HV_X64_MSR_SINT14: u32 = 0x4000_009E;
pub const HV_X64_MSR_SINT15: u32 = 0x4000_009F;

/// The most indices that a list of registers can hold.
pub const MAX_MSR_ENTRIES: usize = 256;

/// How many registers the library declares supported.
pub const SUPPORTED_MSR_COUNT: usize = 64;

/// The model-specific and synthetic registers that can be read and written on
/// every virtual processor of a partition set up by this library, in the order
/// in which they are reported.
///
/// Three registers are left out on purpose. `IA32_MSR_BNDCFGS` depends on
/// processor features that are not switched on for a partition,
/// `IA32_MSR_SPEC_CTRL` likewise, and the hypervisor does not yet hand out
/// `IA32_MSR_TSC_ADJUST`.
pub open spec fn supported_msr_indices() -> Seq<u32> {
    seq![
        IA32_MSR_TSC,
        IA32_MSR_EFER,
        IA32_MSR_KERNEL_GS_BASE,
        IA32_MSR_APIC_BASE,
        IA32_MSR_PAT,
        IA32_MSR_SYSENTER_CS,
        IA32_MSR_SYSENTER_ESP,
        IA32_MSR_SYSENTER_EIP,
        IA32_MSR_STAR,
        IA32_MSR_LSTAR,
        IA32_MSR_CSTAR,
        IA32_MSR_SFMASK,
        IA32_MSR_MTRR_DEF_TYPE,
        IA32_MSR_MTRR_PHYSBASE0,
        IA32_MSR_MTRR_PHYSMASK0,
        IA32_MSR_MTRR_PHYSBASE1,
        IA32_MSR_MTRR_PHYSMASK1,
        IA32_MSR_MTRR_PHYSBASE2,
        IA32_MSR_MTRR_PHYSMASK2,
        IA32_MSR_MTRR_PHYSBASE3,
        IA32_MSR_MTRR_PHYSMASK3,
        IA32_MSR_MTRR_PHYSBASE4,
        IA32_MSR_MTRR_PHYSMASK4,
        IA32_MSR_MTRR_PHYSBASE5,
        IA32_MSR_MTRR_PHYSMASK5,
        IA32_MSR_MTRR_PHYSBASE6,
        IA32_MSR_MTRR_PHYSMASK6,
        IA32_MSR_MTRR_PHYSBASE7,
        IA32_MSR_MTRR_PHYSMASK7,
        IA32_MSR_MTRR_FIX64K_00000,
        IA32_MSR_MTRR_FIX16K_80000,
        IA32_MSR_MTRR_FIX16K_A0000,
        IA32_MSR_MTRR_FIX4K_C0000,
        IA32_MSR_MTRR_FIX4K_C8000,
        IA32_MSR_MTRR_FIX4K_D0000,
        IA32_MSR_MTRR_FIX4K_D8000,
        IA32_MSR_MTRR_FIX4K_E0000,
        IA32_MSR_MTRR_FIX4K_E8000,
        IA32_MSR_MTRR_FIX4K_F0000,
        IA32_MSR_MTRR_FIX4K_F8000,
        IA32_MSR_TSC_AUX,
        IA32_MSR_DEBUG_CTL,
        HV_X64_MSR_GUEST_OS_ID,
        HV_X64_MSR_SINT0,
        HV_X64_MSR_SINT1,
        HV_X64_MSR_SINT2,
        HV_X64_MSR_SINT3,
        HV_X64_MSR_SINT4,
        HV_X64_MSR_SINT5,
        HV_X64_MSR_SINT6,
        HV_X64_MSR_SINT7,
        HV_X64_MSR_SINT8,
        HV_X64_MSR_SINT9,
        HV_X64_MSR_SINT10,
        HV_X64_MSR_SINT11,
        HV_X64_MSR_SINT12,
        HV_X64_MSR_SINT13,
        HV_X64_MSR_SINT14,
        HV_X64_MSR_SINT15,
        HV_X64_MSR_SCONTROL,
        HV_X64_MSR_SIEFP,
        HV_X64_MSR_SIMP,
        HV_X64_MSR_REFERENCE_TSC,
        HV_X64_MSR_EOM,
    ]
}

/// The supported registers as an array, in the order of
/// [`supported_msr_indices`].
pub fn supported_msrs() -> (entries: [u32; 64])
    ensures
        entries@ == supported_msr_indices(),
{
    let entries: [u32; 64] = [
        IA32_MSR_TSC,
        IA32_MSR_EFER,
        IA32_MSR_KERNEL_GS_BASE,
        IA32_MSR_APIC_BASE,
        IA32_MSR_PAT,
        IA32_MSR_SYSENTER_CS,
        IA32_MSR_SYSENTER_ESP,
        IA32_MSR_SYSENTER_EIP,
        IA32_MSR_STAR,
        IA32_MSR_LSTAR,
        IA32_MSR_CSTAR,
        IA32_MSR_SFMASK,
        IA32_MSR_MTRR_DEF_TYPE,
        IA32_MSR_MTRR_PHYSBASE0,
        IA32_MSR_MTRR_PHYSMASK0,
        IA32_MSR_MTRR_PHYSBASE1,
        IA32_MSR_MTRR_PHYSMASK1,
        IA32_MSR_MTRR_PHYSBASE2,
        IA32_MSR_MTRR_PHYSMASK2,
        IA32_MSR_MTRR_PHYSBASE3,
        IA32_MSR_MTRR_PHYSMASK3,
        IA32_MSR_MTRR_PHYSBASE4,
        IA32_MSR_MTRR_PHYSMASK4,
        IA32_MSR_MTRR_PHYSBASE5,
        IA32_MSR_MTRR_PHYSMASK5,
        IA32_MSR_MTRR_PHYSBASE6,
        IA32_MSR_MTRR_PHYSMASK6,
        IA32_MSR_MTRR_PHYSBASE7,
        IA32_MSR_MTRR_PHYSMASK7,
        IA32_MSR_MTRR_FIX64K_00000,
        IA32_MSR_MTRR_FIX16K_80000,
        IA32_MSR_MTRR_FIX16K_A0000,
        IA32_MSR_MTRR_FIX4K_C0000,
        IA32_MSR_MTRR_FIX4K_C8000,
        IA32_MSR_MTRR_FIX4K_D0000,
        IA32_MSR_MTRR_FIX4K_D8000,
        IA32_MSR_MTRR_FIX4K_E0000,
        IA32_MSR_MTRR_FIX4K_E8000,
        IA32_MSR_MTRR_FIX4K_F0000,
        IA32_MSR_MTRR_FIX4K_F8000,
        IA32_MSR_TSC_AUX,
        IA32_MSR_DEBUG_CTL,
        HV_X64_MSR_GUEST_OS_ID,
        HV_X64_MSR_SINT0,
        HV_X64_MSR_SINT1,
        HV_X64_MSR_SINT2,
        HV_X64_MSR_SINT3,
        HV_X64_MSR_SINT4,
        HV_X64_MSR_SINT5,
        HV_X64_MSR_SINT6,
        HV_X64_MSR_SINT7,
        HV_X64_MSR_SINT8,
        HV_X64_MSR_SINT9,
        HV_X64_MSR_SINT10,
        HV_X64_MSR_SINT11,
        HV_X64_MSR_SINT12,
        HV_X64_MSR_SINT13,
        HV_X64_MSR_SINT14,
        HV_X64_MSR_SINT15,
        HV_X64_MSR_SCONTROL,
        HV_X64_MSR_SIEFP,
        HV_X64_MSR_SIMP,
        HV_X64_MSR_REFERENCE_TSC,
        HV_X64_MSR_EOM,
    ];
    assert(entries@ =~= supported_msr_indices());
    entries
}

/// A list of register indices in the form in which the kernel takes one: a
/// count followed by that many indices. It is held in an
/// `mshv_bindings::MsrList`, which Verus cannot look into;
/// [`msr_list_indices`] names what it holds.
#[verifier::external_body]
pub struct MsrList {
    inner: mshv_bindings::MsrList,
}

/// The indices that a list holds, in order.
pub uninterp spec fn msr_list_indices(list: MsrList) -> Seq<u32>;

impl View for MsrList {
    type V = Seq<u32>;

    open spec fn view(&self) -> Seq<u32> {
        msr_list_indices(*self)
    }
}

/// The error of `vmm_sys_util::fam::FamStructWrapper`: a list would be longer
/// than its kind allows.
#[verifier::external_type_specification]
#[verifier::external_body]
pub struct ExFamError(vmm_sys_util::fam::Error);

/// Calls `FamStructWrapper::from_entries` for `mshv_bindings::MsrList`. It
/// refuses more than `MAX_MSR_ENTRIES` entries, the limit that `mshv_bindings`
/// gives `msr_list`; otherwise it allocates a list of that length and copies
/// the entries into it in order.
#[verifier::external_body]
fn fam_from_entries(entries: &[u32]) -> (r: Result<MsrList, vmm_sys_util::fam::Error>)
    ensures
        entries@.len() <= MAX_MSR_ENTRIES ==> r is Ok && msr_list_indices(r->Ok_0) == entries@,
        entries@.len() > MAX_MSR_ENTRIES ==> r is Err,
{
    match mshv_bindings::MsrList::from_entries(entries) {
        Ok(inner) => Ok(MsrList { inner }),
        Err(e) => Err(e),
    }
}

/// Calls `FamStructWrapper::as_slice`, which hands out the entries that the
/// list holds, as many as its count says.
#[verifier::external_body]
fn fam_as_slice(list: &MsrList) -> (entries: &[u32])
    ensures
        entries@ == msr_list_indices(*list),
{
    list.inner.as_slice()
}

impl MsrList {
    /// The number of indices in the list.
    pub fn len(&self) -> (n: usize)
        ensures
            n == self@.len(),
    {
        fam_as_slice(self).len()
    }

    /// Whether `index` is in the list.
    pub fn contains(&self, index: u32) -> (found: bool)
        ensures
            found == self@.contains(index),
    {
        let entries = fam_as_slice(self);
        let mut i: usize = 0;
        while i < entries.len()
            invariant
                i <= entries@.len(),
                entries@ == self@,
                forall|k: int| 0 <= k < i ==> entries@[k] != index,
            decreases entries@.len() - i,
        {
            if entries[i] == index {
                return true;
            }
            i += 1;
        }
        false
    }

    /// The indices of the list, in order.
    pub fn to_vec(&self) -> (indices: Vec<u32>)
        ensures
            indices@ == self@,
    {
        let entries = fam_as_slice(self);
        let mut indices: Vec<u32> = Vec::new();
        let mut i: usize = 0;
        while i < entries.len()
            invariant
                i <= entries@.len(),
                indices@ == entries@.take(i as int),
            decreases entries@.len() - i,
        {
            indices.push(entries[i]);
            assert(entries@.take(i + 1) == entries@.take(i as int).push(entries@[i as int]));
            i += 1;
        }
        assert(entries@.take(entries@.len() as int) == entries@);
        indices
    }
}

/// The list of the supported registers, as [`supported_msr_indices`] gives
/// them.
pub fn supported_msr_list() -> (list: MsrList)
    ensures
        list@ == supported_msr_indices(),
        list@.len() == SUPPORTED_MSR_COUNT,
{
    let entries: [u32; 64] = supported_msrs();
    match fam_from_entries(entries.as_slice()) {
        Ok(list) => list,
        Err(_) => vstd::pervasive::unreached(),
    }
}

/// No register stands twice among the supported ones.
pub proof fn lemma_supported_msrs_distinct()
    ensures
        supported_msr_indices().len() == SUPPORTED_MSR_COUNT,
        supported_msr_indices().no_duplicates(),
{
    let s = supported_msr_indices();
    assert forall|i: int, j: int| 0 <= i < s.len() && 0 <= j < s.len() && i != j implies s[i]
        != s[j] by {}
}

/// `IA32_MSR_SYSENTER_CS` is among the supported registers exactly once, as
/// the sixth of them.
pub proof fn lemma_sysenter_cs_once()
    ensures
        forall|i: int|
            0 <= i < supported_msr_indices().len() ==> (supported_msr_indices()[i]
                == IA32_MSR_SYSENTER_CS <==> i == 5),
{
}

/// The three registers that were left out are not among the supported ones.
pub proof fn lemma_excluded_msrs_absent()
    ensures
        !supported_msr_indices().contains(IA32_MSR_BNDCFGS),
        !supported_msr_indices().contains(IA32_MSR_SPEC_CTRL),
        !supported_msr_indices().contains(IA32_MSR_TSC_ADJUST),
{
}

} // verus!
