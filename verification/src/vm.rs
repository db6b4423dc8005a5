use crate::arch::Arch;
use crate::call::KernelCall;
use crate::error::{check_status, MshvError};
use crate::features::{baseline_mask, SyntheticProcessorFeatures};
use crate::partition::{
    default_flags, isolation_of, CreatePartition, VmType,
    HV_PARTITION_PROPERTY_SYNTHETIC_PROC_FEATURES,
};
use vstd::prelude::*;

verus! {

/// The handle of one partition: the descriptor that the kernel gave when the
/// partition was created. Whoever holds the handle owns the descriptor.
#[derive(Debug, PartialEq, Eq)]
pub struct VmFd {
    vm: i32,
}

impl VmFd {
    /// The descriptor of the partition.
    pub closed spec fn fd(&self) -> i32 {
        self.vm
    }

    /// The handle of the partition behind an open descriptor. The descriptor
    /// must belong to nobody else.
    pub fn new(fd: i32) -> (vm: VmFd)
        ensures
            vm.fd() == fd,
    {
        VmFd { vm: fd }
    }

    /// The descriptor of the partition.
    pub fn as_raw_fd(&self) -> (fd: i32)
        ensures
            fd == self.fd(),
    {
        self.vm
    }

    /// The call that sets one property of the partition.
    pub fn hvcall_set_partition_property(&self, code: u32, value: u64) -> (call: KernelCall)
        ensures
            call == (KernelCall::SetPartitionProperty { partition: self.fd(), code, value }),
    {
        KernelCall::SetPartitionProperty { partition: self.vm, code, value }
    }

    /// The call that initializes the partition. Virtual processors can be
    /// created once it has succeeded.
    pub fn initialize(&self) -> (call: KernelCall)
        ensures
            call == (KernelCall::InitializePartition { partition: self.fd() }),
    {
        KernelCall::InitializePartition { partition: self.vm }
    }
}

/// How far the creation of a virtual machine has come.
#[derive(Clone, Copy, Debug, PartialEq, Eq)]
pub enum CreationState {
    /// Nothing has been asked of the kernel yet.
    Unopened,
    /// The partition exists. No feature of it may be relied on.
    Created { vm: i32 },
    /// The synthetic processor features have been set.
    Configured { vm: i32 },
    /// The partition is initialized and ready for virtual processors.
    Initialized { vm: i32 },
    /// A call failed and the creation was given up. If the partition had been
    /// created by then, its descriptor is still open and is to be released.
    Failed { error: MshvError, partition: Option<i32> },
}

impl CreationState {
    /// Whether the creation has ended, well or badly.
    pub open spec fn is_terminal(self) -> bool {
        self is Initialized || self is Failed
    }

    /// The state that follows when the kernel answers the pending call with
    /// `reply`. The answer to the creation call is the partition's descriptor.
    /// A failure ends the creation whatever the state; once the creation has
    /// ended nothing changes it.
    pub open spec fn after(self, reply: Result<i32, MshvError>) -> CreationState {
        match self {
            CreationState::Unopened => match reply {
                Ok(vm) => CreationState::Created { vm },
                Err(error) => CreationState::Failed { error, partition: None },
            },
            CreationState::Created { vm } => match reply {
                Ok(_) => CreationState::Configured { vm },
                Err(error) => CreationState::Failed { error, partition: Some(vm) },
            },
            CreationState::Configured { vm } => match reply {
                Ok(_) => CreationState::Initialized { vm },
                Err(error) => CreationState::Failed { error, partition: Some(vm) },
            },
            CreationState::Initialized { vm } => self,
            CreationState::Failed { error, partition } => self,
        }
    }
}

/// What a virtual machine is created with. It is fixed before the first call
/// and never changes.
#[derive(Clone, Copy, Debug, PartialEq, Eq)]
pub struct CreationPlan {
    /// The descriptor of the hypervisor device.
    pub device: i32,
    /// The payload of the creation call.
    pub args: CreatePartition,
    /// The synthetic processor features to set before initialization.
    pub features: u64,
}

impl CreationPlan {
    /// The plan for a virtual machine of kind `vm_type` on `arch`.
    pub open spec fn for_vm(device: i32, vm_type: VmType, arch: Arch) -> CreationPlan {
        CreationPlan {
            device,
            args: CreatePartition::for_type(vm_type),
            features: baseline_mask(arch),
        }
    }

    /// The call that the protocol asks for in `state`, if any. The partition
    /// is created first; the synthetic processor features are set on the new
    /// partition next; then it is initialized.
    pub open spec fn call_in(self, state: CreationState) -> Option<KernelCall> {
        match state {
            CreationState::Unopened => Some(
                KernelCall::CreatePartition { device: self.device, args: self.args },
            ),
            CreationState::Created { vm } => Some(
                KernelCall::SetPartitionProperty {
                    partition: vm,
                    code: HV_PARTITION_PROPERTY_SYNTHETIC_PROC_FEATURES,
                    value: self.features,
                },
            ),
            CreationState::Configured { vm } => Some(
                KernelCall::InitializePartition { partition: vm },
            ),
            CreationState::Initialized { vm } => None,
            CreationState::Failed { error, partition } => None,
        }
    }
}

/// What a creation has come to in `state`: the handle of the partition once it
/// is initialized, the error once it has failed, nothing before.
pub open spec fn outcome_in(state: CreationState) -> Option<Result<i32, MshvError>> {
    match state {
        CreationState::Initialized { vm } => Some(Ok(vm)),
        CreationState::Failed { error, partition } => Some(Err(error)),
        _ => None,
    }
}

/// The creation of one virtual machine, call by call.
///
/// While [`VmCreation::next_call`] gives a call, the caller performs it and
/// hands the returned status to [`VmCreation::on_return`]. When it gives none
/// the creation has ended and [`VmCreation::finish`] tells how.
///
/// A creation remembers, for proofs only, every answer that it has taken, and
/// its state is always the one that those answers lead to from `Unopened`.
pub struct VmCreation {
    plan: CreationPlan,
    state: CreationState,
    replies: Ghost<Seq<Result<i32, MshvError>>>,
}

impl VmCreation {
    #[verifier::type_invariant]
    spec fn state_follows_replies(self) -> bool {
        self.state == state_after(self.replies@, self.replies@.len())
    }

    /// What the virtual machine is created with.
    pub closed spec fn plan(&self) -> CreationPlan {
        self.plan
    }

    /// How far the creation has come.
    pub closed spec fn state(&self) -> CreationState {
        self.state
    }

    /// The answers that the creation has taken so far, oldest first.
    pub closed spec fn replies(&self) -> Seq<Result<i32, MshvError>> {
        self.replies@
    }

    /// The call that is to be made next, if any.
    pub open spec fn pending(&self) -> Option<KernelCall> {
        self.plan().call_in(self.state())
    }

    /// Starts the creation of a virtual machine of kind `vm_type` through the
    /// device `device`. The flags, the isolation mode and the synthetic
    /// processor features are fixed here.
    pub fn new(device: i32, vm_type: VmType, arch: Arch) -> (creation: VmCreation)
        ensures
            creation.plan() == CreationPlan::for_vm(device, vm_type, arch),
            creation.state() == CreationState::Unopened,
            creation.replies() == Seq::<Result<i32, MshvError>>::empty(),
    {
        let features = SyntheticProcessorFeatures::baseline(arch);
        let args = CreatePartition::with_type(vm_type);
        VmCreation {
            plan: CreationPlan { device, args, features: features.as_uint64() },
            state: CreationState::Unopened,
            replies: Ghost(Seq::empty()),
        }
    }

    /// How far the creation has come: where the answers taken so far have led.
    pub fn current_state(&self) -> (state: CreationState)
        ensures
            state == self.state(),
            state == state_after(self.replies(), self.replies().len()),
    {
        proof {
            use_type_invariant(self);
        }
        self.state
    }

    /// The call that is to be made next; `None` once the creation has ended.
    pub fn next_call(&self) -> (call: Option<KernelCall>)
        ensures
            call == self.pending(),
            call == self.plan().call_in(state_after(self.replies(), self.replies().len())),
    {
        proof {
            use_type_invariant(self);
        }
        match self.state {
            CreationState::Unopened => Some(
                KernelCall::CreatePartition { device: self.plan.device, args: self.plan.args },
            ),
            CreationState::Created { vm } => Some(
                KernelCall::SetPartitionProperty {
                    partition: vm,
                    code: HV_PARTITION_PROPERTY_SYNTHETIC_PROC_FEATURES,
                    value: self.plan.features,
                },
            ),
            CreationState::Configured { vm } => Some(
                KernelCall::InitializePartition { partition: vm },
            ),
            CreationState::Initialized { .. } => None,
            CreationState::Failed { .. } => None,
        }
    }

    /// Takes the kernel's answer to the pending call and moves on: to the next
    /// state if the call succeeded, to `Failed` with the call's error if not.
    pub fn on_reply(&mut self, reply: Result<i32, MshvError>)
        ensures
            final(self).plan() == old(self).plan(),
            final(self).state() == old(self).state().after(reply),
            final(self).replies() == old(self).replies().push(reply),
    {
        let ghost replies = self.replies@.push(reply);
        proof {
            use_type_invariant(&*self);
            lemma_state_after_push(self.replies@, reply);
        }
        let next = match self.state {
            CreationState::Unopened => match reply {
                Ok(vm) => CreationState::Created { vm },
                Err(error) => CreationState::Failed { error, partition: None },
            },
            CreationState::Created { vm } => match reply {
                Ok(_) => CreationState::Configured { vm },
                Err(error) => CreationState::Failed { error, partition: Some(vm) },
            },
            CreationState::Configured { vm } => match reply {
                Ok(_) => CreationState::Initialized { vm },
                Err(error) => CreationState::Failed { error, partition: Some(vm) },
            },
            CreationState::Initialized { vm } => CreationState::Initialized { vm },
            CreationState::Failed { error, partition } => CreationState::Failed {
                error,
                partition,
            },
        };
        *self = VmCreation { plan: self.plan, state: next, replies: Ghost(replies) };
    }

    /// Takes the status that the pending call has just returned and moves on.
    /// A negative status is a failure, reported with the operating system's
    /// last error code.
    pub fn on_return(&mut self, ret: i32)
        ensures
            final(self).plan() == old(self).plan(),
            ret >= 0 ==> final(self).state() == old(self).state().after(Ok(ret)),
            ret >= 0 ==> final(self).replies() == old(self).replies().push(Ok(ret)),
            ret < 0 ==> exists|code: i32|
                final(self).state() == #[trigger] old(self).state().after(
                    Err(MshvError::OsError(code)),
                ) && final(self).replies() == old(self).replies().push(
                    Err(MshvError::OsError(code)),
                ),
    {
        let reply = check_status(ret);
        self.on_reply(reply);
    }

    /// How the creation has ended: with the handle of the initialized
    /// partition or with an error. `None` while a call is still to be made.
    pub fn finish(&self) -> (outcome: Option<Result<VmFd, MshvError>>)
        ensures
            match outcome {
                Some(Ok(vm)) => outcome_in(self.state()) == Some(
                    Ok::<i32, MshvError>(vm.fd()),
                ),
                Some(Err(error)) => outcome_in(self.state()) == Some(
                    Err::<i32, MshvError>(error),
                ),
                None => outcome_in(self.state()) is None,
            },
    {
        match self.state {
            CreationState::Initialized { vm } => Some(Ok(VmFd::new(vm))),
            CreationState::Failed { error, .. } => Some(Err(error)),
            _ => None,
        }
    }

    /// The descriptor of a partition that was created before the creation
    /// failed. It is still open; the caller closes it.
    pub fn partition_to_release(&self) -> (partition: Option<i32>)
        ensures
            partition == (match self.state() {
                CreationState::Failed { error, partition } => partition,
                _ => None,
            }),
    {
        match self.state {
            CreationState::Failed { partition, .. } => partition,
            _ => None,
        }
    }
}

/// The state of a creation whose first `n` calls the kernel has answered with
/// the first `n` of `replies`.
pub open spec fn state_after(replies: Seq<Result<i32, MshvError>>, n: nat) -> CreationState
    decreases n,
{
    if n == 0 {
        CreationState::Unopened
    } else {
        state_after(replies, (n - 1) as nat).after(replies[n - 1])
    }
}

/// The state after some answers does not depend on the answers that follow
/// them.
pub proof fn lemma_state_after_prefix(
    replies: Seq<Result<i32, MshvError>>,
    more: Seq<Result<i32, MshvError>>,
    n: nat,
)
    requires
        n <= replies.len(),
    ensures
        state_after(replies + more, n) == state_after(replies, n),
    decreases n,
{
    if n > 0 {
        lemma_state_after_prefix(replies, more, (n - 1) as nat);
        assert((replies + more)[n - 1] == replies[n - 1]);
    }
}

/// One more answer moves the creation one step on.
pub proof fn lemma_state_after_push(
    replies: Seq<Result<i32, MshvError>>,
    reply: Result<i32, MshvError>,
)
    ensures
        state_after(replies.push(reply), replies.len() + 1) == state_after(
            replies,
            replies.len(),
        ).after(reply),
{
    assert(replies.push(reply) == replies + seq![reply]);
    lemma_state_after_prefix(replies, seq![reply], replies.len());
}

/// Once a creation has ended, further answers change nothing.
pub proof fn lemma_terminal_state_stays(replies: Seq<Result<i32, MshvError>>, n: nat, m: nat)
    requires
        n <= m,
        state_after(replies, n).is_terminal(),
    ensures
        state_after(replies, m) == state_after(replies, n),
    decreases m,
{
    if n < m {
        lemma_terminal_state_stays(replies, n, (m - 1) as nat);
    }
}

/// Whatever the kernel answers, a creation makes its calls in one order: the
/// partition is created first, the synthetic processor features are set
/// second and only if the creation succeeded, the partition is initialized
/// third and only if both succeeded, and no call follows. So the features are
/// set at most once, strictly after the creation and strictly before the
/// initialization, with the features of the plan on the partition that the
/// creation call gave.
pub proof fn lemma_call_order(plan: CreationPlan, replies: Seq<Result<i32, MshvError>>, n: nat)
    requires
        n <= replies.len(),
    ensures
        match plan.call_in(state_after(replies, n)) {
            Some(KernelCall::CreatePartition { device, args }) => n == 0 && device == plan.device
                && args == plan.args,
            Some(KernelCall::SetPartitionProperty { partition, code, value }) => n == 1
                && replies[0] == Ok::<i32, MshvError>(partition) && code
                == HV_PARTITION_PROPERTY_SYNTHETIC_PROC_FEATURES && value == plan.features,
            Some(KernelCall::InitializePartition { partition }) => n == 2 && replies[0] == Ok::<
                i32,
                MshvError,
            >(partition) && replies[1] is Ok,
            Some(_) => false,
            None => n >= 3 || exists|k: int| 0 <= k < n && replies[k] is Err,
        },
        n == 0 ==> plan.call_in(state_after(replies, n)) is Some,
        n == 1 && replies[0] is Ok ==> plan.call_in(state_after(replies, n)) is Some,
        n == 2 && replies[0] is Ok && replies[1] is Ok ==> plan.call_in(
            state_after(replies, n),
        ) is Some,
{
    reveal_with_fuel(state_after, 4);
    if n >= 3 {
        lemma_terminal_state_stays(replies, 3, n);
    }
}

/// A creation ends well exactly if the kernel answered each of its three
/// calls with success; the partition is then the one that the creation call
/// gave.
pub proof fn lemma_initialized(replies: Seq<Result<i32, MshvError>>, n: nat)
    requires
        n <= replies.len(),
    ensures
        state_after(replies, n) is Initialized <==> n >= 3 && replies[0] is Ok && replies[1] is Ok
            && replies[2] is Ok,
        state_after(replies, n) is Initialized ==> state_after(replies, n) == (
        CreationState::Initialized { vm: replies[0]->Ok_0 }),
{
    reveal_with_fuel(state_after, 4);
    if n >= 3 {
        lemma_terminal_state_stays(replies, 3, n);
    }
}

/// If the creation call fails, the creation ends at once with that error: no
/// property is set, nothing is initialized and there is no partition to
/// release.
pub proof fn lemma_failed_creation(
    plan: CreationPlan,
    replies: Seq<Result<i32, MshvError>>,
    n: nat,
)
    requires
        1 <= n <= replies.len(),
        replies[0] is Err,
    ensures
        state_after(replies, n) == (CreationState::Failed {
            error: replies[0]->Err_0,
            partition: None,
        }),
        plan.call_in(state_after(replies, n)) is None,
{
    reveal_with_fuel(state_after, 2);
    lemma_terminal_state_stays(replies, 1, n);
}

/// If a call fails after the partition was created, the creation ends with
/// the error of that call, and the failed state names the partition, so that
/// its descriptor can be released.
pub proof fn lemma_failed_setup(replies: Seq<Result<i32, MshvError>>, n: nat, k: nat)
    requires
        n <= replies.len(),
        1 <= k < n,
        k < 3,
        forall|j: int| 0 <= j < k ==> (#[trigger] replies[j]) is Ok,
        replies[k as int] is Err,
    ensures
        state_after(replies, n) == (CreationState::Failed {
            error: replies[k as int]->Err_0,
            partition: Some(replies[0]->Ok_0),
        }),
{
    reveal_with_fuel(state_after, 4);
    assert(replies[0] is Ok);
    if k == 2 {
        assert(replies[1] is Ok);
    }
    lemma_terminal_state_stays(replies, k + 1, n);
}

/// A virtual machine whose creation ended well was created with the
/// isolation mode of its kind, and all the synthetic processor features of its
/// architecture were set on its partition before the partition was
/// initialized.
pub proof fn lemma_initialized_vm_was_configured(
    device: i32,
    vm_type: VmType,
    arch: Arch,
    replies: Seq<Result<i32, MshvError>>,
    n: nat,
)
    requires
        n <= replies.len(),
        state_after(replies, n) is Initialized,
    ensures
        replies[0] is Ok,
        CreationPlan::for_vm(device, vm_type, arch).call_in(state_after(replies, 0)) == Some(
            KernelCall::CreatePartition {
                device,
                args: CreatePartition {
                    pt_flags: default_flags(),
                    pt_isolation: isolation_of(vm_type),
                },
            },
        ),
        CreationPlan::for_vm(device, vm_type, arch).call_in(state_after(replies, 1)) == Some(
            KernelCall::SetPartitionProperty {
                partition: replies[0]->Ok_0,
                code: HV_PARTITION_PROPERTY_SYNTHETIC_PROC_FEATURES,
                value: baseline_mask(arch),
            },
        ),
        CreationPlan::for_vm(device, vm_type, arch).call_in(state_after(replies, 2)) == Some(
            KernelCall::InitializePartition { partition: replies[0]->Ok_0 },
        ),
        state_after(replies, n) == (CreationState::Initialized { vm: replies[0]->Ok_0 }),
{
    lemma_initialized(replies, n);
    reveal_with_fuel(state_after, 4);
}

} // verus!
