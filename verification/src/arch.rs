use vstd::prelude::*;

verus! {

/// The processor architecture that a session runs on.
///
/// It selects what differs between the targets: the guest idle register is not
/// offered to partitions on `Aarch64`, and the list of model-specific registers
/// exists on `X86_64` alone.
#[derive(Clone, Copy, Debug, PartialEq, Eq, Structural)]
pub enum Arch {
    X86_64,
    Aarch64,
}

} // verus!
