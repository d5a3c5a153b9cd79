//! The event flags group: thirty-two flags that threads set and wait for.

use vstd::prelude::*;
use crate::error::{check_status, checked, TxError, TxResult};
use crate::kernel::{
    accepts, call_checked, checked_call, invoke, replied, KernelCall, KernelReply, TX_AND,
    TX_AND_CLEAR, TX_NO_EVENTS, TX_OR, TX_OR_CLEAR,
};
use crate::resource::{ControlBlock, Lifecycle};
use crate::trampoline::Trampoline;
use crate::WaitOption;
use crate::name::TxStr;

verus! {

/// What a thread that asks for flags waits for.
#[derive(Clone, Copy, Debug, PartialEq, Eq, Structural)]
pub enum GetOption {
    /// Until all the requested flags are set.
    WaitAll,
    /// Until all the requested flags are set; they are cleared as the wait is satisfied.
    WaitAllAndClear,
    /// Until any of the requested flags is set.
    WaitAny,
    /// Until any of the requested flags is set; those found are cleared as the wait is
    /// satisfied.
    WaitAnyAndClear,
}

impl GetOption {
    /// The option word that the kernel knows this choice by.
    pub open spec fn word(self) -> u32 {
        match self {
            GetOption::WaitAll => TX_AND,
            GetOption::WaitAllAndClear => TX_AND_CLEAR,
            GetOption::WaitAny => TX_OR,
            GetOption::WaitAnyAndClear => TX_OR_CLEAR,
        }
    }

    /// The option word that the kernel knows this choice by.
    pub fn code(self) -> (word: u32)
        ensures
            word == self.word(),
    {
        match self {
            GetOption::WaitAll => TX_AND,
            GetOption::WaitAllAndClear => TX_AND_CLEAR,
            GetOption::WaitAny => TX_OR,
            GetOption::WaitAnyAndClear => TX_OR_CLEAR,
        }
    }
}

/// How flags are put into a group.
#[derive(Clone, Copy, Debug, PartialEq, Eq, Structural)]
pub enum SetOption {
    /// The group keeps only those of its flags that are given: the others are cleared.
    SetAndClear,
    /// The given flags are added to those of the group.
    SetAny,
}

impl SetOption {
    /// The option word that the kernel knows this choice by.
    pub open spec fn word(self) -> u32 {
        match self {
            SetOption::SetAndClear => TX_AND,
            SetOption::SetAny => TX_OR,
        }
    }

    /// The option word that the kernel knows this choice by.
    pub fn code(self) -> (word: u32)
        ensures
            word == self.word(),
    {
        match self {
            SetOption::SetAndClear => TX_AND,
            SetOption::SetAny => TX_OR,
        }
    }
}

/// What a request for flags comes back with: the flags that the kernel saw when the wait
/// was satisfied, or the kernel's error.
pub open spec fn flags_got<K: Fn(KernelCall) -> KernelReply>(
    kernel: &K,
    call: KernelCall,
    r: Result<u32, TxError>,
) -> bool {
    exists|reply: KernelReply| #[trigger]
        replied(kernel, call, reply) && match checked(reply.status) {
            Ok(()) => r == Ok::<u32, TxError>(reply.value),
            Err(error) => r == Err::<u32, TxError>(error),
        }
}

/// An event flags group that the kernel has not been given yet.
pub struct EventFlagsGroup(ControlBlock);

impl EventFlagsGroup {
    /// The resource object of the group.
    pub closed spec fn control(&self) -> ControlBlock {
        self.0
    }

    /// A group that is not initialized.
    pub fn new() -> (group: EventFlagsGroup)
        ensures
            group.control().lifecycle() == Lifecycle::Uninitialized,
    {
        EventFlagsGroup(ControlBlock::new())
    }

    /// Whether the group has been initialized.
    pub fn is_initialized(&self) -> (done: bool)
        ensures
            done == (self.control().lifecycle() != Lifecycle::Uninitialized),
    {
        !self.0.is_uninitialized()
    }

    /// Creates the group, whose control block lies at `storage`, with no flag set. A group
    /// is initialized once: the call is not for a group that is initialized already.
    pub fn initialize<K: Fn(KernelCall) -> KernelReply>(
        &mut self,
        storage: usize,
        name: TxStr,
        kernel: &K,
    ) -> (r: TxResult)
        requires
            old(self).control().lifecycle() == Lifecycle::Uninitialized,
            storage != 0,
            accepts(kernel, KernelCall::EventFlagsCreate { group: storage, name }),
        ensures
            old(self).control().step(final(self).control()),
            call_checked(kernel, KernelCall::EventFlagsCreate { group: storage, name }, r),
            r is Ok ==> final(self).control().lifecycle() == Lifecycle::Live
                && final(self).control().address() == storage,
            r is Err ==> final(self).control() == old(self).control(),
    {
        self.0.create(storage, KernelCall::EventFlagsCreate { group: storage, name }, kernel)
    }

    /// Adds `flags_to_set` to the flags of the group. This may be called where a thread
    /// may not block, such as from a timer's callback. A group that was never initialized
    /// is no group to the kernel: the answer is the kernel's error for that,
    /// [`TxError::GroupError`], and the kernel is not asked.
    pub fn publish<K: Fn(KernelCall) -> KernelReply>(
        &self,
        flags_to_set: u32,
        kernel: &K,
    ) -> (r: TxResult)
        requires
            self.control().lifecycle() != Lifecycle::Uninitialized ==> accepts(
                kernel,
                KernelCall::EventFlagsSet {
                    group: self.control().address(),
                    flags: flags_to_set,
                    option: TX_OR,
                },
            ),
        ensures
            if self.control().lifecycle() == Lifecycle::Uninitialized {
                r == Err::<(), TxError>(TxError::GroupError)
            } else {
                call_checked(
                    kernel,
                    KernelCall::EventFlagsSet {
                        group: self.control().address(),
                        flags: flags_to_set,
                        option: TX_OR,
                    },
                    r,
                )
            },
    {
        match self.0.bound_address() {
            Some(group) => checked_call(
                kernel,
                KernelCall::EventFlagsSet { group, flags: flags_to_set, option: TX_OR },
            ),
            None => Err(TxError::GroupError),
        }
    }

    /// Waits for `requested_flags` as `get_option` says, for as long as `wait_option`
    /// allows, and hands back the flags that the kernel saw when the wait was satisfied.
    /// A group that was never initialized is no group to the kernel: the answer is the
    /// kernel's error for that, [`TxError::GroupError`], and the kernel is not asked.
    pub fn get<K: Fn(KernelCall) -> KernelReply>(
        &self,
        requested_flags: u32,
        get_option: GetOption,
        wait_option: WaitOption,
        kernel: &K,
    ) -> (r: Result<u32, TxError>)
        requires
            self.control().lifecycle() != Lifecycle::Uninitialized ==> accepts(
                kernel,
                KernelCall::EventFlagsGet {
                    group: self.control().address(),
                    requested: requested_flags,
                    option: get_option.word(),
                    wait: wait_option.word(),
                },
            ),
        ensures
            if self.control().lifecycle() == Lifecycle::Uninitialized {
                r == Err::<u32, TxError>(TxError::GroupError)
            } else {
                flags_got(
                    kernel,
                    KernelCall::EventFlagsGet {
                        group: self.control().address(),
                        requested: requested_flags,
                        option: get_option.word(),
                        wait: wait_option.word(),
                    },
                    r,
                )
            },
    {
        match self.0.bound_address() {
            Some(group) => {
                let reply = invoke(
                    kernel,
                    KernelCall::EventFlagsGet {
                        group,
                        requested: requested_flags,
                        option: get_option.code(),
                        wait: wait_option.code(),
                    },
                );
                match check_status(reply.status) {
                    Ok(()) => Ok(reply.value),
                    Err(error) => Err(error),
                }
            },
            None => Err(TxError::GroupError),
        }
    }
}

/// A handle on an event flags group by its address alone.
#[derive(Debug)]
pub struct EventFlagsGroupHandle(usize);

impl Clone for EventFlagsGroupHandle {
    /// Another handle on the same group.
    fn clone(&self) -> (handle: EventFlagsGroupHandle)
        ensures
            handle == *self,
    {
        proof {
            use_type_invariant(self);
        }
        EventFlagsGroupHandle(self.0)
    }
}

impl EventFlagsGroupHandle {
    #[verifier::type_invariant]
    spec fn not_null(self) -> bool {
        self.0 != 0
    }

    /// The address of the group that the handle stands for.
    pub closed spec fn address(&self) -> usize {
        self.0
    }

    /// The handle on the group at `group_ptr`, which is not the null address.
    pub fn new(group_ptr: usize) -> (handle: EventFlagsGroupHandle)
        requires
            group_ptr != 0,
        ensures
            handle.address() == group_ptr,
    {
        EventFlagsGroupHandle(group_ptr)
    }

    /// Deletes the group; the handle is gone with it.
    pub fn delete<K: Fn(KernelCall) -> KernelReply>(self, kernel: &K) -> (r: TxResult)
        requires
            accepts(kernel, KernelCall::EventFlagsDelete { group: self.address() }),
        ensures
            call_checked(kernel, KernelCall::EventFlagsDelete { group: self.address() }, r),
    {
        checked_call(kernel, KernelCall::EventFlagsDelete { group: self.0 })
    }

    /// Waits for `requested_flags` as `get_option` says, for as long as `wait_option`
    /// allows, and hands back the flags that the kernel saw when the wait was satisfied.
    pub fn get<K: Fn(KernelCall) -> KernelReply>(
        &self,
        requested_flags: u32,
        get_option: GetOption,
        wait_option: WaitOption,
        kernel: &K,
    ) -> (r: Result<u32, TxError>)
        requires
            accepts(
                kernel,
                KernelCall::EventFlagsGet {
                    group: self.address(),
                    requested: requested_flags,
                    option: get_option.word(),
                    wait: wait_option.word(),
                },
            ),
        ensures
            flags_got(
                kernel,
                KernelCall::EventFlagsGet {
                    group: self.address(),
                    requested: requested_flags,
                    option: get_option.word(),
                    wait: wait_option.word(),
                },
                r,
            ),
    {
        let reply = invoke(
            kernel,
            KernelCall::EventFlagsGet {
                group: self.0,
                requested: requested_flags,
                option: get_option.code(),
                wait: wait_option.code(),
            },
        );
        match check_status(reply.status) {
            Ok(()) => Ok(reply.value),
            Err(error) => Err(error),
        }
    }

    /// Puts `flags_to_set` into the group as `set_option` says.
    pub fn set<K: Fn(KernelCall) -> KernelReply>(
        &self,
        flags_to_set: u32,
        set_option: SetOption,
        kernel: &K,
    ) -> (r: TxResult)
        requires
            accepts(
                kernel,
                KernelCall::EventFlagsSet {
                    group: self.address(),
                    flags: flags_to_set,
                    option: set_option.word(),
                },
            ),
        ensures
            call_checked(
                kernel,
                KernelCall::EventFlagsSet {
                    group: self.address(),
                    flags: flags_to_set,
                    option: set_option.word(),
                },
                r,
            ),
    {
        checked_call(
            kernel,
            KernelCall::EventFlagsSet {
                group: self.0,
                flags: flags_to_set,
                option: set_option.code(),
            },
        )
    }

    /// Registers the bridged callback `notify`, which the kernel calls whenever flags are
    /// set in the group.
    pub fn on_notify<K: Fn(KernelCall) -> KernelReply>(
        &mut self,
        notify: &Trampoline,
        kernel: &K,
    ) -> (r: TxResult)
        requires
            accepts(
                kernel,
                KernelCall::EventFlagsSetNotify {
                    group: old(self).address(),
                    notify: notify.function(),
                },
            ),
        ensures
            *final(self) == *old(self),
            call_checked(
                kernel,
                KernelCall::EventFlagsSetNotify {
                    group: old(self).address(),
                    notify: notify.function(),
                },
                r,
            ),
    {
        checked_call(
            kernel,
            KernelCall::EventFlagsSetNotify { group: self.0, notify: notify.entry() },
        )
    }
}

/// Asking for flags without waiting never suspends the caller: the kernel is asked with
/// the wait word that forbids it, and where it finds the flags not set as the option
/// wants them the caller gets [`TxError::NoEvents`].
pub proof fn lemma_get_no_wait<K: Fn(KernelCall) -> KernelReply>(
    kernel: &K,
    group: usize,
    requested: u32,
    get_option: GetOption,
    r: Result<u32, TxError>,
)
    requires
        flags_got(
            kernel,
            KernelCall::EventFlagsGet {
                group,
                requested,
                option: get_option.word(),
                wait: WaitOption::NoWait.word(),
            },
            r,
        ),
        forall|reply: KernelReply| #[trigger]
            replied(
                kernel,
                KernelCall::EventFlagsGet { group, requested, option: get_option.word(), wait: 0 },
                reply,
            ) ==> reply.status == TX_NO_EVENTS,
    ensures
        WaitOption::NoWait.word() == 0,
        r == Err::<u32, TxError>(TxError::NoEvents),
{
}

} // verus!
