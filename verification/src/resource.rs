//! The resource object: a storage cell that the kernel fills in place, once.

use vstd::prelude::*;
use crate::error::TxResult;
use crate::kernel::{accepts, call_checked, checked_call, KernelCall, KernelReply};

verus! {

/// Where a resource object stands in its life.
#[derive(Clone, Copy, Debug, PartialEq, Eq, Structural)]
pub enum Lifecycle {
    /// The kernel has not been given the object yet.
    Uninitialized,
    /// The kernel holds the object, at a fixed address.
    Live,
    /// The kernel has been asked to give the object up.
    Deleted,
}

/// The part of a resource object that this layer reads: its place in its life, and the
/// address that the kernel knows it by. The address is set when the object goes live and
/// never changes afterwards, because the kernel keeps links to it.
pub struct ControlBlock {
    state: Lifecycle,
    address: usize,
}

impl ControlBlock {
    #[verifier::type_invariant]
    spec fn bound_when_used(self) -> bool {
        self.state != Lifecycle::Uninitialized ==> self.address != 0
    }

    /// The place of the object in its life.
    pub closed spec fn lifecycle(&self) -> Lifecycle {
        self.state
    }

    /// The address that the kernel knows the object by. It means nothing while the object
    /// is uninitialized.
    pub closed spec fn address(&self) -> usize {
        self.address
    }

    /// `next` is a state that one operation of this layer may leave the object in: an
    /// uninitialized object stays so or goes live, a live object stays live or is deleted,
    /// a deleted object stays deleted, and a bound object keeps its address.
    pub open spec fn step(self, next: ControlBlock) -> bool {
        match self.lifecycle() {
            Lifecycle::Uninitialized => next == self || next.lifecycle() == Lifecycle::Live,
            Lifecycle::Live => next.address() == self.address() && (next.lifecycle()
                == Lifecycle::Live || next.lifecycle() == Lifecycle::Deleted),
            Lifecycle::Deleted => next == self,
        }
    }

    /// An object that the kernel has not been given yet.
    pub fn new() -> (block: ControlBlock)
        ensures
            block.lifecycle() == Lifecycle::Uninitialized,
    {
        ControlBlock { state: Lifecycle::Uninitialized, address: 0 }
    }

    /// Whether the kernel has not been given the object yet.
    pub fn is_uninitialized(&self) -> (fresh: bool)
        ensures
            fresh == (self.lifecycle() == Lifecycle::Uninitialized),
    {
        matches!(self.state, Lifecycle::Uninitialized)
    }

    /// Whether the kernel holds the object.
    pub fn is_live(&self) -> (live: bool)
        ensures
            live == (self.lifecycle() == Lifecycle::Live),
    {
        matches!(self.state, Lifecycle::Live)
    }

    /// The address that the kernel knows the object by, once it has been given it.
    pub fn bound_address(&self) -> (address: Option<usize>)
        ensures
            address == if self.lifecycle() == Lifecycle::Uninitialized {
                None
            } else {
                Some(self.address())
            },
            address matches Some(a) ==> a != 0,
    {
        proof {
            use_type_invariant(self);
        }
        if self.is_uninitialized() {
            None
        } else {
            Some(self.address)
        }
    }

    /// Gives the object, which lies at `storage`, to the kernel through the creating
    /// service `call`. The object goes live if and only if the service succeeds.
    pub(crate) fn create<K: Fn(KernelCall) -> KernelReply>(
        &mut self,
        storage: usize,
        call: KernelCall,
        kernel: &K,
    ) -> (r: TxResult)
        requires
            old(self).lifecycle() == Lifecycle::Uninitialized,
            storage != 0,
            accepts(kernel, call),
        ensures
            call_checked(kernel, call, r),
            r is Ok ==> final(self).lifecycle() == Lifecycle::Live && final(self).address()
                == storage,
            r is Err ==> *final(self) == *old(self),
    {
        let r = checked_call(kernel, call);
        if r.is_ok() {
            *self = ControlBlock { state: Lifecycle::Live, address: storage };
        }
        r
    }

    /// Asks the kernel, through the deleting service `call`, to give the live object up.
    /// Whatever the kernel answers, the object is not used again.
    pub(crate) fn retire<K: Fn(KernelCall) -> KernelReply>(
        &mut self,
        call: KernelCall,
        kernel: &K,
    ) -> (r: TxResult)
        requires
            old(self).lifecycle() == Lifecycle::Live,
            accepts(kernel, call),
        ensures
            call_checked(kernel, call, r),
            final(self).lifecycle() == Lifecycle::Deleted,
            final(self).address() == old(self).address(),
    {
        proof {
            use_type_invariant(&*self);
        }
        let r = checked_call(kernel, call);
        self.state = Lifecycle::Deleted;
        r
    }
}

/// A run of states in which each follows from the one before by one operation.
pub open spec fn is_history(states: Seq<ControlBlock>) -> bool {
    forall|i: int| 0 <= i < states.len() - 1 ==> (#[trigger] states[i]).step(states[i + 1])
}

/// An object is initialized at most once: whatever is done with it, once it has left the
/// uninitialized state it never comes back to it, and it keeps the address that it was
/// given to the kernel at.
pub proof fn lemma_initialized_once(states: Seq<ControlBlock>, i: int, j: int)
    requires
        is_history(states),
        0 <= i <= j < states.len(),
        states[i].lifecycle() != Lifecycle::Uninitialized,
    ensures
        states[j].lifecycle() != Lifecycle::Uninitialized,
        states[j].address() == states[i].address(),
    decreases j - i,
{
    if i < j {
        lemma_initialized_once(states, i, j - 1);
        assert(states[j - 1].step(states[j - 1 + 1]));
    }
}

} // verus!
