//! Memory pools: a byte pool hands out blocks of any size, a block pool hands out blocks
//! of the one size that it was made for. Both carve a region that the caller lends them.

use vstd::prelude::*;
use crate::error::{check_status, checked, TxError, TxResult};
use crate::kernel::{
    accepts, call_checked, checked_call, invoke, replied, to_word, word_of, KernelCall,
    KernelReply, TX_NO_MEMORY, TX_NO_WAIT, TX_WAIT_FOREVER,
};
use crate::resource::{ControlBlock, Lifecycle};
use crate::name::TxStr;

verus! {

/// A contiguous stretch of memory: where it starts and how many bytes it has. A region is
/// never copied: whoever holds the value holds the memory.
#[derive(Debug, PartialEq, Eq)]
pub struct Region {
    pub start: usize,
    pub len: usize,
}

impl Region {
    /// The region of `len` bytes that starts at `start`.
    pub fn new(start: usize, len: usize) -> (region: Region)
        ensures
            region == (Region { start, len }),
    {
        Region { start, len }
    }
}

/// The wait word for a pool service: to wait is to wait without bound.
pub open spec fn wait_word(wait: bool) -> u32 {
    if wait {
        TX_WAIT_FOREVER
    } else {
        TX_NO_WAIT
    }
}

/// What an allocation through `call` comes back with: a region of `len` bytes that starts
/// where the kernel says, or the error that the kernel's status stands for.
pub open spec fn carved<K: Fn(KernelCall) -> KernelReply>(
    kernel: &K,
    call: KernelCall,
    len: usize,
    r: Result<Region, TxError>,
) -> bool {
    exists|reply: KernelReply| #[trigger]
        replied(kernel, call, reply) && match checked(reply.status) {
            Ok(()) => r matches Ok(region) && region == (Region { start: reply.address, len }),
            Err(error) => r matches Err(e) && e == error,
        }
}

/// A block of memory carved from a pool, as long as was asked for. It is owned by whoever
/// holds it, and is gone once it has been consumed into a stack, a queue or another pool.
#[derive(Debug)]
pub struct MemoryBlock(Region);

impl View for MemoryBlock {
    type V = Region;

    closed spec fn view(&self) -> Region {
        self.0
    }
}

impl MemoryBlock {
    pub(crate) fn new(mem: Region) -> (block: MemoryBlock)
        ensures
            block@ == mem,
    {
        MemoryBlock(mem)
    }

    /// Gives the memory of the block to the caller; the block is gone.
    pub fn consume(self) -> (mem: Region)
        ensures
            mem == self@,
    {
        self.0
    }
}

/// The region of the block that an allocation came back with, or its error.
pub open spec fn block_region(r: Result<MemoryBlock, TxError>) -> Result<Region, TxError> {
    match r {
        Ok(block) => Ok(block@),
        Err(error) => Err(error),
    }
}

/// A byte pool that the kernel has not been given yet.
pub struct BytePool(ControlBlock);

impl BytePool {
    /// The resource object of the pool.
    pub closed spec fn control(&self) -> ControlBlock {
        self.0
    }

    /// The creating service for a pool at `storage` over `pool_memory`, if the length of
    /// the region fits a word of the kernel.
    pub open spec fn create_call(
        storage: usize,
        name: TxStr,
        pool_memory: &Region,
    ) -> Option<KernelCall> {
        match word_of(pool_memory.len) {
            Some(size) => Some(
                KernelCall::BytePoolCreate { pool: storage, name, start: pool_memory.start, size },
            ),
            None => None,
        }
    }

    /// A pool that is not initialized.
    pub fn new() -> (pool: BytePool)
        ensures
            pool.control().lifecycle() == Lifecycle::Uninitialized,
    {
        BytePool(ControlBlock::new())
    }

    /// Whether the pool has been initialized.
    pub fn is_initialized(&self) -> (done: bool)
        ensures
            done == (self.control().lifecycle() != Lifecycle::Uninitialized),
    {
        !self.0.is_uninitialized()
    }

    /// Binds the pool, whose control block lies at `storage`, to the region `pool_memory`,
    /// which must outlive the pool. A pool is initialized once: the call is not for a pool
    /// that is initialized already. A region too long for a word of the kernel is refused
    /// with a size error before the kernel is asked.
    pub fn initialize<K: Fn(KernelCall) -> KernelReply>(
        &mut self,
        storage: usize,
        name: TxStr,
        pool_memory: &Region,
        kernel: &K,
    ) -> (r: Result<BytePoolHandle, TxError>)
        requires
            old(self).control().lifecycle() == Lifecycle::Uninitialized,
            storage != 0,
            Self::create_call(storage, name, pool_memory) matches Some(call) ==> accepts(
                kernel,
                call,
            ),
        ensures
            old(self).control().step(final(self).control()),
            match Self::create_call(storage, name, pool_memory) {
                Some(call) => exists|done: TxResult| #[trigger]
                    call_checked(kernel, call, done) && match done {
                        Ok(()) => r matches Ok(handle) && handle.address() == storage
                            && final(self).control().lifecycle() == Lifecycle::Live
                            && final(self).control().address() == storage,
                        Err(error) => r matches Err(e) && e == error && final(self).control()
                            == old(self).control(),
                    },
                None => r matches Err(e) && e == TxError::SizeError && final(self).control()
                    == old(self).control(),
            },
    {
        match to_word(pool_memory.len) {
            Some(size) => {
                let call = KernelCall::BytePoolCreate {
                    pool: storage,
                    name,
                    start: pool_memory.start,
                    size,
                };
                match self.0.create(storage, call, kernel) {
                    Ok(()) => Ok(BytePoolHandle::new(storage)),
                    Err(error) => Err(error),
                }
            },
            None => Err(TxError::SizeError),
        }
    }
}

/// The capability to use an initialized byte pool.
#[derive(Debug)]
pub struct BytePoolHandle(usize);

impl BytePoolHandle {
    #[verifier::type_invariant]
    spec fn not_null(self) -> bool {
        self.0 != 0
    }

    /// The address of the pool that the handle stands for.
    pub closed spec fn address(&self) -> usize {
        self.0
    }

    pub(crate) fn new(pool: usize) -> (handle: BytePoolHandle)
        requires
            pool != 0,
        ensures
            handle.address() == pool,
    {
        BytePoolHandle(pool)
    }

    /// The address of the pool that the handle stands for.
    pub fn inner(&self) -> (pool: usize)
        ensures
            pool == self.address(),
            pool != 0,
    {
        proof {
            use_type_invariant(self);
        }
        self.0
    }

    /// The allocating service for `size` bytes, if `size` fits a word of the kernel.
    pub open spec fn allocate_call(&self, size: usize, wait: bool) -> Option<KernelCall> {
        match word_of(size) {
            Some(bytes) => Some(
                KernelCall::ByteAllocate {
                    pool: self.address(),
                    size: bytes,
                    wait: wait_word(wait),
                },
            ),
            None => None,
        }
    }

    /// Asks the pool for `size` bytes, waiting without bound for them or not at all. On
    /// success the block starts where the kernel says and is `size` bytes long. A size
    /// beyond a word of the kernel is beyond every pool: it is refused with a size error
    /// before the kernel is asked.
    pub fn allocate<K: Fn(KernelCall) -> KernelReply>(
        &self,
        size: usize,
        wait: bool,
        kernel: &K,
    ) -> (r: Result<MemoryBlock, TxError>)
        requires
            self.allocate_call(size, wait) matches Some(call) ==> accepts(kernel, call),
        ensures
            match self.allocate_call(size, wait) {
                Some(call) => carved(kernel, call, size, block_region(r)),
                None => r matches Err(e) && e == TxError::SizeError,
            },
    {
        match to_word(size) {
            Some(bytes) => {
                let wait_option: u32 = if wait {
                    TX_WAIT_FOREVER
                } else {
                    TX_NO_WAIT
                };
                let reply = invoke(
                    kernel,
                    KernelCall::ByteAllocate { pool: self.0, size: bytes, wait: wait_option },
                );
                match check_status(reply.status) {
                    Ok(()) => Ok(MemoryBlock::new(Region::new(reply.address, size))),
                    Err(error) => Err(error),
                }
            },
            None => Err(TxError::SizeError),
        }
    }

    /// Hands a block back to its pool; the memory is given up with it. The block must
    /// come from this pool: nothing here can tell.
    pub fn release<K: Fn(KernelCall) -> KernelReply>(
        &self,
        mem: Region,
        kernel: &K,
    ) -> (r: TxResult)
        requires
            accepts(kernel, KernelCall::ByteRelease { memory: mem.start }),
        ensures
            call_checked(kernel, KernelCall::ByteRelease { memory: mem.start }, r),
    {
        checked_call(kernel, KernelCall::ByteRelease { memory: mem.start })
    }

    /// Tears the pool down; the handle is gone with it. Blocks that are still out are the
    /// caller's to account for.
    pub fn delete<K: Fn(KernelCall) -> KernelReply>(self, kernel: &K) -> (r: TxResult)
        requires
            accepts(kernel, KernelCall::BytePoolDelete { pool: self.address() }),
        ensures
            call_checked(kernel, KernelCall::BytePoolDelete { pool: self.address() }, r),
    {
        checked_call(kernel, KernelCall::BytePoolDelete { pool: self.0 })
    }
}

/// A block pool that the kernel has not been given yet.
pub struct BlockPool(ControlBlock);

impl BlockPool {
    /// The resource object of the pool.
    pub closed spec fn control(&self) -> ControlBlock {
        self.0
    }

    /// The creating service for a pool at `storage` that partitions `pool_memory` into
    /// blocks of `block_size` bytes, if both sizes fit a word of the kernel.
    pub open spec fn create_call(
        storage: usize,
        name: TxStr,
        block_size: usize,
        pool_memory: &Region,
    ) -> Option<KernelCall> {
        match (word_of(block_size), word_of(pool_memory.len)) {
            (Some(block), Some(size)) => Some(
                KernelCall::BlockPoolCreate {
                    pool: storage,
                    name,
                    block_size: block,
                    start: pool_memory.start,
                    size,
                },
            ),
            _ => None,
        }
    }

    /// A pool that is not initialized.
    pub fn new() -> (pool: BlockPool)
        ensures
            pool.control().lifecycle() == Lifecycle::Uninitialized,
    {
        BlockPool(ControlBlock::new())
    }

    /// Whether the pool has been initialized.
    pub fn is_initialized(&self) -> (done: bool)
        ensures
            done == (self.control().lifecycle() != Lifecycle::Uninitialized),
    {
        !self.0.is_uninitialized()
    }

    /// Binds the pool, whose control block lies at `storage`, to the region `pool_memory`
    /// and partitions it into blocks of `block_size` bytes. A pool is initialized once:
    /// the call is not for a pool that is initialized already. Sizes too large for a word
    /// of the kernel are refused with a size error before the kernel is asked.
    pub fn initialize<K: Fn(KernelCall) -> KernelReply>(
        &mut self,
        storage: usize,
        name: TxStr,
        block_size: usize,
        pool_memory: &Region,
        kernel: &K,
    ) -> (r: Result<BlockPoolHandle, TxError>)
        requires
            old(self).control().lifecycle() == Lifecycle::Uninitialized,
            storage != 0,
            Self::create_call(storage, name, block_size, pool_memory) matches Some(call)
                ==> accepts(kernel, call),
        ensures
            old(self).control().step(final(self).control()),
            match Self::create_call(storage, name, block_size, pool_memory) {
                Some(call) => exists|done: TxResult| #[trigger]
                    call_checked(kernel, call, done) && match done {
                        Ok(()) => r matches Ok(handle) && handle.address() == storage
                            && handle.block_size() == block_size
                            && final(self).control().lifecycle() == Lifecycle::Live
                            && final(self).control().address() == storage,
                        Err(error) => r matches Err(e) && e == error && final(self).control()
                            == old(self).control(),
                    },
                None => r matches Err(e) && e == TxError::SizeError && final(self).control()
                    == old(self).control(),
            },
    {
        match (to_word(block_size), to_word(pool_memory.len)) {
            (Some(block), Some(size)) => {
                let call = KernelCall::BlockPoolCreate {
                    pool: storage,
                    name,
                    block_size: block,
                    start: pool_memory.start,
                    size,
                };
                match self.0.create(storage, call, kernel) {
                    Ok(()) => Ok(BlockPoolHandle { pool: storage, block_size }),
                    Err(error) => Err(error),
                }
            },
            _ => Err(TxError::SizeError),
        }
    }
}

/// The capability to use an initialized block pool.
#[derive(Debug)]
pub struct BlockPoolHandle {
    pool: usize,
    block_size: usize,
}

impl BlockPoolHandle {
    #[verifier::type_invariant]
    spec fn not_null(self) -> bool {
        self.pool != 0
    }

    /// The address of the pool that the handle stands for.
    pub closed spec fn address(&self) -> usize {
        self.pool
    }

    /// The size, in bytes, of every block of the pool.
    pub closed spec fn block_size(&self) -> usize {
        self.block_size
    }

    /// Asks the pool for one block, waiting without bound for it or not at all. On success
    /// the block starts where the kernel says and has the size that the pool was made for.
    pub fn allocate<K: Fn(KernelCall) -> KernelReply>(
        &mut self,
        wait: bool,
        kernel: &K,
    ) -> (r: Result<Region, TxError>)
        requires
            accepts(
                kernel,
                KernelCall::BlockAllocate { pool: old(self).address(), wait: wait_word(wait) },
            ),
        ensures
            *final(self) == *old(self),
            carved(
                kernel,
                KernelCall::BlockAllocate { pool: old(self).address(), wait: wait_word(wait) },
                old(self).block_size(),
                r,
            ),
    {
        let wait_option: u32 = if wait {
            TX_WAIT_FOREVER
        } else {
            TX_NO_WAIT
        };
        let call = KernelCall::BlockAllocate { pool: self.pool, wait: wait_option };
        let reply = invoke(kernel, call);
        match check_status(reply.status) {
            Ok(()) => Ok(Region::new(reply.address, self.block_size)),
            Err(error) => Err(error),
        }
    }

    /// Hands a block back to its pool; the memory is given up with it. The block must
    /// come from this pool: nothing here can tell.
    pub fn release<K: Fn(KernelCall) -> KernelReply>(
        &mut self,
        mem: Region,
        kernel: &K,
    ) -> (r: TxResult)
        requires
            accepts(kernel, KernelCall::BlockRelease { memory: mem.start }),
        ensures
            *final(self) == *old(self),
            call_checked(kernel, KernelCall::BlockRelease { memory: mem.start }, r),
    {
        checked_call(kernel, KernelCall::BlockRelease { memory: mem.start })
    }

    /// Moves the highest-priority thread that waits for a block of this pool to the front
    /// of the waiting threads.
    pub fn prioritize<K: Fn(KernelCall) -> KernelReply>(&mut self, kernel: &K) -> (r: TxResult)
        requires
            accepts(kernel, KernelCall::BlockPoolPrioritize { pool: old(self).address() }),
        ensures
            *final(self) == *old(self),
            call_checked(kernel, KernelCall::BlockPoolPrioritize { pool: old(self).address() }, r),
    {
        checked_call(kernel, KernelCall::BlockPoolPrioritize { pool: self.pool })
    }

    /// Tears the pool down; the handle is gone with it.
    pub fn delete<K: Fn(KernelCall) -> KernelReply>(self, kernel: &K) -> (r: TxResult)
        requires
            accepts(kernel, KernelCall::BlockPoolDelete { pool: self.address() }),
        ensures
            call_checked(kernel, KernelCall::BlockPoolDelete { pool: self.address() }, r),
    {
        checked_call(kernel, KernelCall::BlockPoolDelete { pool: self.pool })
    }
}

/// A request that a pool cannot meet does not suspend a caller who does not wait: the
/// kernel is asked with the wait word that forbids it, and where it finds too little
/// memory left the caller gets the error of its status for that,
/// [`TxError::NoMemoryOrStartError`], and no memory.
pub proof fn lemma_allocate_no_wait<K: Fn(KernelCall) -> KernelReply>(
    kernel: &K,
    call: KernelCall,
    len: usize,
    r: Result<Region, TxError>,
)
    requires
        carved(kernel, call, len, r),
        forall|reply: KernelReply| #[trigger] replied(kernel, call, reply) ==> reply.status
            == TX_NO_MEMORY,
    ensures
        wait_word(false) == TX_NO_WAIT,
        r matches Err(e) && e == TxError::NoMemoryOrStartError,
{
}

} // verus!
