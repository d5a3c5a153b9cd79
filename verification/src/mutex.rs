//! The mutex: a value together with the kernel lock that protects it.

use vstd::prelude::*;
use crate::error::{TxError, TxResult};
use crate::kernel::{
    accepts, call_checked, checked_call, replied, KernelCall, KernelReply, TX_NOT_AVAILABLE,
};
use crate::resource::{ControlBlock, Lifecycle};
use crate::WaitOption;
use crate::name::TxStr;

verus! {

/// Why a mutex could not be locked.
#[derive(Clone, Copy, Debug, PartialEq, Eq, Structural)]
pub enum MutexError {
    /// The kernel refused the lock.
    MutexError(TxError),
    /// The mutex was never initialized, or is torn down already.
    PoisonError,
}

/// The word for "the owner of the lock inherits the priority of those who wait for it".
pub open spec fn inherit_word(inherit: bool) -> u32 {
    if inherit {
        1
    } else {
        0
    }
}

/// A value of type `T` and the lock that protects it.
pub struct Mutex<T> {
    inner: T,
    mutex: ControlBlock,
}

/// The proof that a thread holds the lock of the mutex at one address. Only locking makes
/// one, and unlocking takes it.
#[derive(Debug)]
pub struct LockToken(usize);

/// The exclusive access to the value of a locked mutex. The value is reached through
/// `protected`; the lock is held until the guard is unlocked.
pub struct MutexGuard<'a, T> {
    pub protected: &'a mut T,
    pub lock: LockToken,
}

impl LockToken {
    #[verifier::type_invariant]
    spec fn not_null(self) -> bool {
        self.0 != 0
    }

    /// The address of the mutex whose lock is held.
    pub closed spec fn address(&self) -> usize {
        self.0
    }
}

impl<T> Mutex<T> {
    /// The value that the mutex protects.
    pub closed spec fn value(&self) -> T {
        self.inner
    }

    /// `after` is the mutex `before` once a thread has been through it: the thread found
    /// `found`, which is the value of the mutex as it was, and left `left`, which is the
    /// value of the mutex from then on. The lock itself is as it was.
    pub open spec fn passed(before: Mutex<T>, after: Mutex<T>, found: T, left: T) -> bool {
        &&& found == before.value()
        &&& after.value() == left
        &&& after.control() == before.control()
    }

    /// The resource object of the lock.
    pub closed spec fn control(&self) -> ControlBlock {
        self.mutex
    }

    /// A mutex around `inner`, not initialized.
    pub fn new(inner: T) -> (mutex: Mutex<T>)
        ensures
            mutex.value() == inner,
            mutex.control().lifecycle() == Lifecycle::Uninitialized,
    {
        Mutex { inner, mutex: ControlBlock::new() }
    }

    /// Whether the mutex has been initialized.
    pub fn is_initialized(&self) -> (done: bool)
        ensures
            done == (self.control().lifecycle() != Lifecycle::Uninitialized),
    {
        !self.mutex.is_uninitialized()
    }

    /// Creates the lock, whose control block lies at `storage`, with or without priority
    /// inheritance. A mutex is initialized once: the call is not for a mutex that is
    /// initialized already.
    pub fn initialize<K: Fn(KernelCall) -> KernelReply>(
        &mut self,
        storage: usize,
        name: TxStr,
        inherit: bool,
        kernel: &K,
    ) -> (r: TxResult)
        requires
            old(self).control().lifecycle() == Lifecycle::Uninitialized,
            storage != 0,
            accepts(
                kernel,
                KernelCall::MutexCreate { mutex: storage, name, inherit: inherit_word(inherit) },
            ),
        ensures
            old(self).control().step(final(self).control()),
            final(self).value() == old(self).value(),
            call_checked(
                kernel,
                KernelCall::MutexCreate { mutex: storage, name, inherit: inherit_word(inherit) },
                r,
            ),
            r is Ok ==> final(self).control().lifecycle() == Lifecycle::Live
                && final(self).control().address() == storage,
            r is Err ==> final(self).control() == old(self).control(),
    {
        let inherit_option: u32 = if inherit {
            1
        } else {
            0
        };
        self.mutex.create(
            storage,
            KernelCall::MutexCreate { mutex: storage, name, inherit: inherit_option },
            kernel,
        )
    }

    /// Takes the lock, waiting for it as `wait_option` says, and hands back the guard
    /// through which the value is read and written. A mutex that is not live is poisoned,
    /// and the kernel is not asked. The guard starts from the value of the mutex, and what
    /// it holds when it is given up is the value of the mutex from then on: no other
    /// guard exists in between, because the mutex is borrowed for as long as this one
    /// lives.
    pub fn lock<'a, K: Fn(KernelCall) -> KernelReply>(
        &'a mut self,
        wait_option: WaitOption,
        kernel: &K,
    ) -> (r: Result<MutexGuard<'a, T>, MutexError>)
        requires
            old(self).control().lifecycle() == Lifecycle::Live ==> accepts(
                kernel,
                KernelCall::MutexGet {
                    mutex: old(self).control().address(),
                    wait: wait_option.word(),
                },
            ),
        ensures
            final(self).control() == old(self).control(),
            if old(self).control().lifecycle() == Lifecycle::Live {
                exists|done: TxResult| #[trigger]
                    call_checked(
                        kernel,
                        KernelCall::MutexGet {
                            mutex: old(self).control().address(),
                            wait: wait_option.word(),
                        },
                        done,
                    ) && match done {
                        Ok(()) => r matches Ok(guard) && Self::passed(
                            *old(self),
                            *final(self),
                            *guard.protected,
                            *final(guard.protected),
                        ) && guard.lock.address() == old(self).control().address(),
                        Err(error) => r matches Err(e) && e == MutexError::MutexError(error)
                            && final(self).value() == old(self).value(),
                    }
            } else {
                r matches Err(e) && e == MutexError::PoisonError
                    && final(self).value() == old(self).value()
            },
    {
        if !self.mutex.is_live() {
            return Err(MutexError::PoisonError);
        }
        match self.mutex.bound_address() {
            Some(mutex) => {
                let call = KernelCall::MutexGet { mutex, wait: wait_option.code() };
                match checked_call(kernel, call) {
                    Ok(()) => Ok(MutexGuard { protected: &mut self.inner, lock: LockToken(mutex) }),
                    Err(error) => Err(MutexError::MutexError(error)),
                }
            },
            None => Err(MutexError::PoisonError),
        }
    }

    /// Tears the lock down. A failure of the kernel to delete it is handed back and is
    /// otherwise of no consequence: either way the mutex is poisoned from now on. A mutex
    /// that is not live has no lock to delete: the answer is a mutex error, and the
    /// kernel is not asked.
    pub fn delete<K: Fn(KernelCall) -> KernelReply>(&mut self, kernel: &K) -> (r: TxResult)
        requires
            old(self).control().lifecycle() == Lifecycle::Live ==> accepts(
                kernel,
                KernelCall::MutexDelete { mutex: old(self).control().address() },
            ),
        ensures
            old(self).control().step(final(self).control()),
            final(self).value() == old(self).value(),
            if old(self).control().lifecycle() == Lifecycle::Live {
                call_checked(
                    kernel,
                    KernelCall::MutexDelete { mutex: old(self).control().address() },
                    r,
                ) && final(self).control().lifecycle() == Lifecycle::Deleted
            } else {
                r == Err::<(), TxError>(TxError::MutexError)
                    && final(self).control() == old(self).control()
            },
    {
        if !self.mutex.is_live() {
            return Err(TxError::MutexError);
        }
        match self.mutex.bound_address() {
            Some(mutex) => self.mutex.retire(KernelCall::MutexDelete { mutex }, kernel),
            None => Err(TxError::MutexError),
        }
    }
}

impl<'a, T> MutexGuard<'a, T> {
    /// Gives the lock back; the guard, and with it the access to the value, is gone. A
    /// failure of the kernel to take the lock back is handed to the caller to report:
    /// nothing more can be done about it.
    pub fn unlock<K: Fn(KernelCall) -> KernelReply>(self, kernel: &K) -> (r: TxResult)
        requires
            accepts(kernel, KernelCall::MutexPut { mutex: self.lock.address() }),
        ensures
            call_checked(kernel, KernelCall::MutexPut { mutex: self.lock.address() }, r),
            *final(self.protected) == *old(self.protected),
    {
        checked_call(kernel, KernelCall::MutexPut { mutex: self.lock.0 })
    }
}

/// The states of a mutex that threads go through one after the other, each adding one
/// to what `count` counts in the value: each state but the first is the one before it
/// after a thread has found its value and left a value that counts one more.
pub open spec fn is_counting<T>(states: Seq<Mutex<T>>, count: spec_fn(T) -> int) -> bool {
    forall|i: int|
        0 <= i < states.len() - 1 ==> Mutex::passed(
            #[trigger] states[i],
            states[i + 1],
            states[i].value(),
            states[i + 1].value(),
        ) && count(states[i + 1].value()) == count(states[i].value()) + 1
}

/// No increment is lost and none is applied twice: when `n` threads, in whatever order
/// the kernel lets them through, have each locked the mutex, added one to its value and
/// given the lock back, the value counts `n` more than at the start, and the lock is
/// the one it was.
pub proof fn lemma_rounds_add_up<T>(states: Seq<Mutex<T>>, count: spec_fn(T) -> int, n: int)
    requires
        is_counting(states, count),
        0 <= n < states.len(),
    ensures
        count(states[n].value()) == count(states[0].value()) + n,
        states[n].control() == states[0].control(),
    decreases n,
{
    if n > 0 {
        lemma_rounds_add_up(states, count, n - 1);
        assert(Mutex::passed(
            states[n - 1],
            states[n - 1 + 1],
            states[n - 1].value(),
            states[n - 1 + 1].value(),
        ));
    }
}

/// Locking without waiting never suspends the caller: the kernel is asked with the wait
/// word that forbids it, and where it finds the lock held by another thread the caller
/// gets [`TxError::NotAvailable`] from it, which `lock` hands on as a
/// [`MutexError::MutexError`].
pub proof fn lemma_lock_no_wait<K: Fn(KernelCall) -> KernelReply>(
    kernel: &K,
    mutex: usize,
    done: TxResult,
)
    requires
        call_checked(kernel, KernelCall::MutexGet { mutex, wait: WaitOption::NoWait.word() }, done),
        forall|reply: KernelReply| #[trigger]
            replied(kernel, KernelCall::MutexGet { mutex, wait: 0 }, reply) ==> reply.status
                == TX_NOT_AVAILABLE,
    ensures
        WaitOption::NoWait.word() == 0,
        done == Err::<(), TxError>(TxError::NotAvailable),
{
}

} // verus!
