//! Threads: creation on a stack of their own, and the start, suspend and delete that
//! follow.

use vstd::prelude::*;
use core::time::Duration;
use crate::error::{TxError, TxResult};
use crate::kernel::{
    accepts, call_checked, checked_call, to_word, word_of, KernelCall, KernelReply,
};
use crate::pool::Region;
use crate::resource::{ControlBlock, Lifecycle};
use crate::time::{duration_ticks, ticks_of};
use crate::trampoline::Trampoline;
use crate::name::TxStr;

verus! {

/// The word for "start the thread as soon as it is created".
pub open spec fn start_word(auto_start: bool) -> u32 {
    if auto_start {
        1
    } else {
        0
    }
}

/// The address that stands for an entry function, where "none" is the null address.
pub open spec fn entry_address(entry_function: Option<usize>) -> usize {
    match entry_function {
        Some(function) => function,
        None => 0,
    }
}

/// The creating service for a thread at `storage`, if the length of the stack fits a
/// word of the kernel.
pub open spec fn create_call(
    storage: usize,
    name: TxStr,
    entry: usize,
    input: u32,
    stack: &Region,
    priority: u32,
    preempt_threshold: u32,
    time_slice: u32,
    auto_start: bool,
) -> Option<KernelCall> {
    match word_of(stack.len) {
        Some(stack_size) => Some(
            KernelCall::ThreadCreate {
                thread: storage,
                name,
                entry,
                input,
                stack_start: stack.start,
                stack_size,
                priority,
                preempt_threshold,
                time_slice,
                auto_start: start_word(auto_start),
            },
        ),
        None => None,
    }
}

/// A thread that the kernel has not been given yet.
pub struct Thread(ControlBlock);

impl Thread {
    /// The resource object of the thread.
    pub closed spec fn control(&self) -> ControlBlock {
        self.0
    }

    /// What creating the thread through `call` leaves behind: the thread is live at
    /// `storage` and `r` is its handle if the kernel reports success, and the thread is
    /// untouched and `r` the kernel's error if not. Without a service to ask, the stack
    /// was too long and `r` is a size error.
    pub open spec fn created<K: Fn(KernelCall) -> KernelReply>(
        before: Thread,
        after: Thread,
        storage: usize,
        call: Option<KernelCall>,
        kernel: &K,
        r: Result<ThreadHandle, TxError>,
    ) -> bool {
        match call {
            Some(call) => exists|done: TxResult| #[trigger]
                call_checked(kernel, call, done) && match done {
                    Ok(()) => r matches Ok(handle) && handle.address() == storage
                        && after.control().lifecycle() == Lifecycle::Live
                        && after.control().address() == storage,
                    Err(error) => r matches Err(e) && e == error && after.control()
                        == before.control(),
                },
            None => r matches Err(e) && e == TxError::SizeError && after.control()
                == before.control(),
        }
    }

    /// A thread that is not initialized.
    pub fn new() -> (thread: Thread)
        ensures
            thread.control().lifecycle() == Lifecycle::Uninitialized,
    {
        Thread(ControlBlock::new())
    }

    /// Whether the thread has been initialized.
    pub fn is_initialized(&self) -> (done: bool)
        ensures
            done == (self.control().lifecycle() != Lifecycle::Uninitialized),
    {
        !self.0.is_uninitialized()
    }

    fn create<K: Fn(KernelCall) -> KernelReply>(
        &mut self,
        storage: usize,
        name: TxStr,
        entry: usize,
        input: u32,
        stack: &Region,
        priority: u32,
        preempt_threshold: u32,
        time_slice: u32,
        auto_start: bool,
        kernel: &K,
    ) -> (r: Result<ThreadHandle, TxError>)
        requires
            old(self).control().lifecycle() == Lifecycle::Uninitialized,
            storage != 0,
            create_call(
                storage,
                name,
                entry,
                input,
                stack,
                priority,
                preempt_threshold,
                time_slice,
                auto_start,
            ) matches Some(call) ==> accepts(kernel, call),
        ensures
            old(self).control().step(final(self).control()),
            Self::created(
                *old(self),
                *final(self),
                storage,
                create_call(
                    storage,
                    name,
                    entry,
                    input,
                    stack,
                    priority,
                    preempt_threshold,
                    time_slice,
                    auto_start,
                ),
                kernel,
                r,
            ),
    {
        match to_word(stack.len) {
            Some(stack_size) => {
                let call = KernelCall::ThreadCreate {
                    thread: storage,
                    name,
                    entry,
                    input,
                    stack_start: stack.start,
                    stack_size,
                    priority,
                    preempt_threshold,
                    time_slice,
                    auto_start: if auto_start {
                        1
                    } else {
                        0
                    },
                };
                match self.0.create(storage, call, kernel) {
                    Ok(()) => Ok(ThreadHandle::new(storage)),
                    Err(error) => Err(error),
                }
            },
            None => Err(TxError::SizeError),
        }
    }

    /// Creates the thread, whose control block lies at `storage`, with the bridged closure
    /// `entry_function` as its body and `stack` as its stack. The kernel is given the
    /// trampoline as the entry and the closure's address as the entry's input. The stack
    /// must belong to this thread alone: nothing here can tell. A thread is initialized
    /// once: the call is not for a thread that is initialized already. A stack too long
    /// for a word of the kernel is refused with a size error before the kernel is asked.
    pub fn initialize<K: Fn(KernelCall) -> KernelReply>(
        &mut self,
        storage: usize,
        name: TxStr,
        entry_function: &Trampoline,
        stack: &Region,
        priority: u32,
        preempt_threshold: u32,
        time_slice: u32,
        auto_start: bool,
        kernel: &K,
    ) -> (r: Result<ThreadHandle, TxError>)
        requires
            old(self).control().lifecycle() == Lifecycle::Uninitialized,
            storage != 0,
            create_call(
                storage,
                name,
                entry_function.function(),
                entry_function.input_word(),
                stack,
                priority,
                preempt_threshold,
                time_slice,
                auto_start,
            ) matches Some(call) ==> accepts(kernel, call),
        ensures
            old(self).control().step(final(self).control()),
            Self::created(
                *old(self),
                *final(self),
                storage,
                create_call(
                    storage,
                    name,
                    entry_function.function(),
                    entry_function.input_word(),
                    stack,
                    priority,
                    preempt_threshold,
                    time_slice,
                    auto_start,
                ),
                kernel,
                r,
            ),
    {
        let entry: usize = entry_function.entry();
        let input: u32 = entry_function.input();
        self.create(
            storage,
            name,
            entry,
            input,
            stack,
            priority,
            preempt_threshold,
            time_slice,
            auto_start,
            kernel,
        )
    }

    /// Creates the thread, whose control block lies at `storage`, with a plain function
    /// as its body: the kernel is given the function's address, or the null address for
    /// none, and `arg` as its input, with no bridge between. The rest is as for
    /// [`Thread::initialize`].
    pub fn create_with_c_func<K: Fn(KernelCall) -> KernelReply>(
        &mut self,
        storage: usize,
        name: TxStr,
        entry_function: Option<usize>,
        arg: u32,
        stack: &Region,
        priority: u32,
        preempt_threshold: u32,
        time_slice: u32,
        auto_start: bool,
        kernel: &K,
    ) -> (r: Result<ThreadHandle, TxError>)
        requires
            old(self).control().lifecycle() == Lifecycle::Uninitialized,
            storage != 0,
            create_call(
                storage,
                name,
                entry_address(entry_function),
                arg,
                stack,
                priority,
                preempt_threshold,
                time_slice,
                auto_start,
            ) matches Some(call) ==> accepts(kernel, call),
        ensures
            old(self).control().step(final(self).control()),
            Self::created(
                *old(self),
                *final(self),
                storage,
                create_call(
                    storage,
                    name,
                    entry_address(entry_function),
                    arg,
                    stack,
                    priority,
                    preempt_threshold,
                    time_slice,
                    auto_start,
                ),
                kernel,
                r,
            ),
    {
        let entry: usize = match entry_function {
            Some(function) => function,
            None => 0,
        };
        self.create(
            storage,
            name,
            entry,
            arg,
            stack,
            priority,
            preempt_threshold,
            time_slice,
            auto_start,
            kernel,
        )
    }
}

/// The capability to run a created thread. Only creating a thread makes one.
#[derive(Debug)]
pub struct ThreadHandle(usize);

impl ThreadHandle {
    #[verifier::type_invariant]
    spec fn not_null(self) -> bool {
        self.0 != 0
    }

    /// The address of the thread that the handle stands for.
    pub closed spec fn address(&self) -> usize {
        self.0
    }

    pub(crate) fn new(thread: usize) -> (handle: ThreadHandle)
        requires
            thread != 0,
        ensures
            handle.address() == thread,
    {
        ThreadHandle(thread)
    }

    /// Makes the thread ready to run.
    pub fn start<K: Fn(KernelCall) -> KernelReply>(&mut self, kernel: &K) -> (r: TxResult)
        requires
            accepts(kernel, KernelCall::ThreadResume { thread: old(self).address() }),
        ensures
            *final(self) == *old(self),
            call_checked(kernel, KernelCall::ThreadResume { thread: old(self).address() }, r),
    {
        checked_call(kernel, KernelCall::ThreadResume { thread: self.0 })
    }

    /// Suspends the thread until it is started again.
    pub fn suspend<K: Fn(KernelCall) -> KernelReply>(&mut self, kernel: &K) -> (r: TxResult)
        requires
            accepts(kernel, KernelCall::ThreadSuspend { thread: old(self).address() }),
        ensures
            *final(self) == *old(self),
            call_checked(kernel, KernelCall::ThreadSuspend { thread: old(self).address() }, r),
    {
        checked_call(kernel, KernelCall::ThreadSuspend { thread: self.0 })
    }

    /// Deletes the thread. The handle is given up with it, so the thread cannot be used
    /// afterwards.
    pub fn delete<K: Fn(KernelCall) -> KernelReply>(self, kernel: &K) -> (r: TxResult)
        requires
            accepts(kernel, KernelCall::ThreadDelete { thread: self.address() }),
        ensures
            call_checked(kernel, KernelCall::ThreadDelete { thread: self.address() }, r),
    {
        checked_call(kernel, KernelCall::ThreadDelete { thread: self.0 })
    }
}

/// Puts the calling thread to sleep for `d`, rounded up to whole ticks: with a tick of
/// ten milliseconds, to sleep for one millisecond is to sleep for ten.
pub fn sleep<K: Fn(KernelCall) -> KernelReply>(d: Duration, kernel: &K) -> (r: TxResult)
    requires
        accepts(kernel, KernelCall::ThreadSleep { ticks: ticks_of(d) }),
    ensures
        call_checked(kernel, KernelCall::ThreadSleep { ticks: ticks_of(d) }, r),
{
    let ticks: u32 = duration_ticks(d);
    checked_call(kernel, KernelCall::ThreadSleep { ticks })
}

} // verus!
