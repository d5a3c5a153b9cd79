//! The counting semaphore, with one owner, who decides how long it lives, and any number
//! of users.

use vstd::prelude::*;
use crate::error::{TxError, TxResult};
use crate::kernel::{
    accepts, call_checked, checked_call, replied, KernelCall, KernelReply, TX_NO_INSTANCE,
};
use crate::resource::{ControlBlock, Lifecycle};
use crate::trampoline::Trampoline;
use crate::WaitOption;
use crate::name::TxStr;

verus! {

/// A semaphore that the kernel has not been given yet.
pub struct Semaphore(ControlBlock);

impl Semaphore {
    /// The resource object of the semaphore.
    pub closed spec fn control(&self) -> ControlBlock {
        self.0
    }

    /// A semaphore that is not initialized.
    pub fn new() -> (semaphore: Semaphore)
        ensures
            semaphore.control().lifecycle() == Lifecycle::Uninitialized,
    {
        Semaphore(ControlBlock::new())
    }

    /// Whether the semaphore has been initialized.
    pub fn is_initialized(&self) -> (done: bool)
        ensures
            done == (self.control().lifecycle() != Lifecycle::Uninitialized),
    {
        !self.0.is_uninitialized()
    }

    /// Creates the semaphore, whose control block lies at `storage`, with a count of
    /// `initial_count`, and hands its owner the handle. A semaphore is initialized once:
    /// the call is not for a semaphore that is initialized already.
    pub fn initialize<K: Fn(KernelCall) -> KernelReply>(
        &mut self,
        storage: usize,
        name: TxStr,
        initial_count: u32,
        kernel: &K,
    ) -> (r: Result<SemaphoreOwnerHandle, TxError>)
        requires
            old(self).control().lifecycle() == Lifecycle::Uninitialized,
            storage != 0,
            accepts(
                kernel,
                KernelCall::SemaphoreCreate { semaphore: storage, name, initial_count },
            ),
        ensures
            old(self).control().step(final(self).control()),
            exists|done: TxResult| #[trigger]
                call_checked(
                    kernel,
                    KernelCall::SemaphoreCreate { semaphore: storage, name, initial_count },
                    done,
                ) && match done {
                    Ok(()) => r matches Ok(handle) && handle.semaphore() == storage
                        && final(self).control().lifecycle() == Lifecycle::Live
                        && final(self).control().address() == storage,
                    Err(error) => r matches Err(e) && e == error && final(self).control()
                        == old(self).control(),
                },
    {
        let call = KernelCall::SemaphoreCreate { semaphore: storage, name, initial_count };
        match self.0.create(storage, call, kernel) {
            Ok(()) => Ok(SemaphoreOwnerHandle::new(storage)),
            Err(error) => Err(error),
        }
    }
}

/// The owner's view of a semaphore: it makes users, and it alone deletes. There is one
/// owner: the handle is not copied, and deleting the semaphore takes it.
#[derive(Debug)]
pub struct SemaphoreOwnerHandle(usize);

/// A user's view of a semaphore: it takes and gives, and cannot delete.
#[derive(Debug)]
pub struct SemaphoreUserHandle(usize);

/// What the owner of a semaphore can do.
pub trait SemaphoreOwner: Sized {
    /// The address of the semaphore that the owner holds.
    spec fn semaphore(&self) -> usize;

    /// Deletes the semaphore; the owner's handle is gone with it.
    fn delete<K: Fn(KernelCall) -> KernelReply>(self, kernel: &K) -> (r: TxResult)
        requires
            accepts(kernel, KernelCall::SemaphoreDelete { semaphore: self.semaphore() }),
        ensures
            call_checked(kernel, KernelCall::SemaphoreDelete { semaphore: self.semaphore() }, r),
    ;

    /// Makes a user's handle for the same semaphore.
    fn get_semaphore_user(&self) -> (user: SemaphoreUserHandle)
        ensures
            user.semaphore() == self.semaphore(),
    ;
}

/// What a user of a semaphore can do.
pub trait SemaphoreUser {
    /// The address of the semaphore that the user holds.
    spec fn semaphore(&self) -> usize;

    /// Takes one from the count. With a count of zero the caller waits as `wait` says:
    /// without bound, or not at all, and then with the kernel's error.
    fn get<K: Fn(KernelCall) -> KernelReply>(&self, wait: WaitOption, kernel: &K) -> (r: TxResult)
        requires
            accepts(
                kernel,
                KernelCall::SemaphoreGet { semaphore: self.semaphore(), wait: wait.word() },
            ),
        ensures
            call_checked(
                kernel,
                KernelCall::SemaphoreGet { semaphore: self.semaphore(), wait: wait.word() },
                r,
            ),
    ;

    /// Adds one to the count, which may wake one waiting thread.
    fn put<K: Fn(KernelCall) -> KernelReply>(&self, kernel: &K) -> (r: TxResult)
        requires
            accepts(kernel, KernelCall::SemaphorePut { semaphore: self.semaphore() }),
        ensures
            call_checked(kernel, KernelCall::SemaphorePut { semaphore: self.semaphore() }, r),
    ;

    /// Moves the highest-priority waiting thread to the front, so that it is served next.
    fn prioritize<K: Fn(KernelCall) -> KernelReply>(&self, kernel: &K) -> (r: TxResult)
        requires
            accepts(kernel, KernelCall::SemaphorePrioritize { semaphore: self.semaphore() }),
        ensures
            call_checked(
                kernel,
                KernelCall::SemaphorePrioritize { semaphore: self.semaphore() },
                r,
            ),
    ;

    /// Registers the bridged callback `notify`, which the kernel calls whenever the count
    /// goes up. It runs in the kernel's own context: it must not block, nor delete the
    /// semaphore.
    fn semaphore_put_notify<K: Fn(KernelCall) -> KernelReply>(
        &self,
        notify: &Trampoline,
        kernel: &K,
    ) -> (r: TxResult)
        requires
            accepts(
                kernel,
                KernelCall::SemaphorePutNotify {
                    semaphore: self.semaphore(),
                    notify: notify.function(),
                },
            ),
        ensures
            call_checked(
                kernel,
                KernelCall::SemaphorePutNotify {
                    semaphore: self.semaphore(),
                    notify: notify.function(),
                },
                r,
            ),
    ;
}

impl SemaphoreOwnerHandle {
    #[verifier::type_invariant]
    spec fn not_null(self) -> bool {
        self.0 != 0
    }

    pub(crate) fn new(semaphore: usize) -> (handle: SemaphoreOwnerHandle)
        requires
            semaphore != 0,
        ensures
            handle.semaphore() == semaphore,
    {
        SemaphoreOwnerHandle(semaphore)
    }
}

impl SemaphoreUserHandle {
    #[verifier::type_invariant]
    spec fn not_null(self) -> bool {
        self.0 != 0
    }

    /// The user's handle on the semaphore at `sem_ptr`, as the kernel names it to a
    /// callback. The null address names no semaphore.
    pub fn new(sem_ptr: usize) -> (handle: Option<SemaphoreUserHandle>)
        ensures
            match handle {
                Some(user) => sem_ptr != 0 && user.semaphore() == sem_ptr,
                None => sem_ptr == 0,
            },
    {
        if sem_ptr != 0 {
            Some(SemaphoreUserHandle(sem_ptr))
        } else {
            None
        }
    }
}

impl SemaphoreOwner for SemaphoreOwnerHandle {
    closed spec fn semaphore(&self) -> usize {
        self.0
    }

    fn delete<K: Fn(KernelCall) -> KernelReply>(self, kernel: &K) -> (r: TxResult) {
        checked_call(kernel, KernelCall::SemaphoreDelete { semaphore: self.0 })
    }

    fn get_semaphore_user(&self) -> (user: SemaphoreUserHandle) {
        proof {
            use_type_invariant(self);
        }
        SemaphoreUserHandle(self.0)
    }
}

impl SemaphoreUser for SemaphoreUserHandle {
    closed spec fn semaphore(&self) -> usize {
        self.0
    }

    fn get<K: Fn(KernelCall) -> KernelReply>(&self, wait: WaitOption, kernel: &K) -> (r: TxResult) {
        checked_call(kernel, KernelCall::SemaphoreGet { semaphore: self.0, wait: wait.code() })
    }

    fn put<K: Fn(KernelCall) -> KernelReply>(&self, kernel: &K) -> (r: TxResult) {
        checked_call(kernel, KernelCall::SemaphorePut { semaphore: self.0 })
    }

    fn prioritize<K: Fn(KernelCall) -> KernelReply>(&self, kernel: &K) -> (r: TxResult) {
        checked_call(kernel, KernelCall::SemaphorePrioritize { semaphore: self.0 })
    }

    fn semaphore_put_notify<K: Fn(KernelCall) -> KernelReply>(
        &self,
        notify: &Trampoline,
        kernel: &K,
    ) -> (r: TxResult) {
        checked_call(
            kernel,
            KernelCall::SemaphorePutNotify { semaphore: self.0, notify: notify.entry() },
        )
    }
}

/// Taking from a semaphore without waiting never suspends the caller: the kernel is asked
/// with the wait word that forbids it, and where it finds the count at zero the caller
/// gets [`TxError::NoInstance`].
pub proof fn lemma_get_no_wait<K: Fn(KernelCall) -> KernelReply>(
    kernel: &K,
    semaphore: usize,
    r: TxResult,
)
    requires
        call_checked(
            kernel,
            KernelCall::SemaphoreGet { semaphore, wait: WaitOption::NoWait.word() },
            r,
        ),
        forall|reply: KernelReply| #[trigger]
            replied(kernel, KernelCall::SemaphoreGet { semaphore, wait: 0 }, reply)
                ==> reply.status == TX_NO_INSTANCE,
    ensures
        WaitOption::NoWait.word() == 0,
        r == Err::<(), TxError>(TxError::NoInstance),
{
}

} // verus!
