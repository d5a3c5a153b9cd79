//! One byte pool as the provider of all dynamic memory.

use vstd::prelude::*;
use crate::error::{check_status, checked, TxError, TxResult};
use crate::kernel::{
    accepts, call_checked, checked_call, invoke, replied, to_word, word_of, KernelCall,
    KernelReply, TX_WAIT_FOREVER,
};
use crate::name::{is_name, TxStr};
use crate::pool::Region;
use crate::resource::{ControlBlock, Lifecycle};

verus! {

/// The name that the allocator's pool is created under.
pub open spec fn pool_name() -> TxStr {
    TxStr::of("global\0")
}

/// The byte pool behind the process-wide allocator, not given to the kernel yet.
pub struct ThreadXAllocator(ControlBlock);

impl ThreadXAllocator {
    /// The resource object of the allocator's pool.
    pub closed spec fn control(&self) -> ControlBlock {
        self.0
    }

    /// The creating service for the allocator's pool at `storage` over `pool_memory`, if
    /// the length of the region fits a word of the kernel.
    pub open spec fn create_call(storage: usize, pool_memory: &Region) -> Option<KernelCall> {
        match word_of(pool_memory.len) {
            Some(size) => Some(
                KernelCall::BytePoolCreate {
                    pool: storage,
                    name: pool_name(),
                    start: pool_memory.start,
                    size,
                },
            ),
            None => None,
        }
    }

    /// The allocating service for `size` bytes, if the pool is initialized and `size`
    /// fits a word of the kernel. An allocation always waits.
    pub open spec fn allocate_call(&self, size: usize) -> Option<KernelCall> {
        if self.control().lifecycle() == Lifecycle::Uninitialized {
            None
        } else {
            match word_of(size) {
                Some(bytes) => Some(
                    KernelCall::ByteAllocate {
                        pool: self.control().address(),
                        size: bytes,
                        wait: TX_WAIT_FOREVER,
                    },
                ),
                None => None,
            }
        }
    }

    /// An allocator that is not initialized.
    pub fn new() -> (allocator: ThreadXAllocator)
        ensures
            allocator.control().lifecycle() == Lifecycle::Uninitialized,
    {
        ThreadXAllocator(ControlBlock::new())
    }

    /// Whether the allocator has been initialized.
    pub fn is_initialized(&self) -> (done: bool)
        ensures
            done == (self.control().lifecycle() != Lifecycle::Uninitialized),
    {
        !self.0.is_uninitialized()
    }

    /// Binds the allocator's pool, whose control block lies at `storage`, to the region
    /// `pool_memory`. An allocator is initialized once: the call is not for one that is
    /// initialized already. A region too long for a word of the kernel is refused with a
    /// size error before the kernel is asked.
    pub fn initialize<K: Fn(KernelCall) -> KernelReply>(
        &mut self,
        storage: usize,
        pool_memory: &Region,
        kernel: &K,
    ) -> (r: TxResult)
        requires
            old(self).control().lifecycle() == Lifecycle::Uninitialized,
            storage != 0,
            Self::create_call(storage, pool_memory) matches Some(call) ==> accepts(kernel, call),
        ensures
            old(self).control().step(final(self).control()),
            match Self::create_call(storage, pool_memory) {
                Some(call) => call_checked(kernel, call, r),
                None => r == Err::<(), TxError>(TxError::SizeError),
            },
            r is Ok ==> final(self).control().lifecycle() == Lifecycle::Live
                && final(self).control().address() == storage,
            r is Err ==> final(self).control() == old(self).control(),
    {
        let name = TxStr::new("global\0");
        proof {
            reveal_strlit("global\0");
            assert(is_name("global\0"@));
        }
        match (name, to_word(pool_memory.len)) {
            (Some(name), Some(size)) => {
                let call = KernelCall::BytePoolCreate {
                    pool: storage,
                    name,
                    start: pool_memory.start,
                    size,
                };
                self.0.create(storage, call, kernel)
            },
            _ => Err(TxError::SizeError),
        }
    }

    /// Allocates `size` bytes from the pool, waiting for them without bound, and hands
    /// back where they start. Whoever provides dynamic memory to a program has no way to
    /// report a failure, and is to stop the program on an error from here. An allocator
    /// that was never initialized has no pool: the answer is a pool error. A size beyond
    /// a word of the kernel is beyond every pool: the answer is a size error. In both
    /// cases the kernel is not asked.
    pub fn allocate<K: Fn(KernelCall) -> KernelReply>(
        &self,
        size: usize,
        kernel: &K,
    ) -> (r: Result<usize, TxError>)
        requires
            self.allocate_call(size) matches Some(call) ==> accepts(kernel, call),
        ensures
            match self.allocate_call(size) {
                Some(call) => exists|reply: KernelReply| #[trigger]
                    replied(kernel, call, reply) && match checked(reply.status) {
                        Ok(()) => r == Ok::<usize, TxError>(reply.address),
                        Err(error) => r == Err::<usize, TxError>(error),
                    },
                None => r == Err::<usize, TxError>(
                    if self.control().lifecycle() == Lifecycle::Uninitialized {
                        TxError::PoolError
                    } else {
                        TxError::SizeError
                    },
                ),
            },
    {
        match self.0.bound_address() {
            Some(pool) => match to_word(size) {
                Some(bytes) => {
                    let reply = invoke(
                        kernel,
                        KernelCall::ByteAllocate { pool, size: bytes, wait: TX_WAIT_FOREVER },
                    );
                    match check_status(reply.status) {
                        Ok(()) => Ok(reply.address),
                        Err(error) => Err(error),
                    }
                },
                None => Err(TxError::SizeError),
            },
            None => Err(TxError::PoolError),
        }
    }

    /// Hands the memory that starts at `ptr` back to the pool.
    pub fn dealloc<K: Fn(KernelCall) -> KernelReply>(&self, ptr: usize, kernel: &K) -> (r: TxResult)
        requires
            accepts(kernel, KernelCall::ByteRelease { memory: ptr }),
        ensures
            call_checked(kernel, KernelCall::ByteRelease { memory: ptr }, r),
    {
        checked_call(kernel, KernelCall::ByteRelease { memory: ptr })
    }
}

} // verus!
