//! The kernel entry: the services that this layer asks of the kernel, and the checked call
//! that every other component is built on.

use vstd::prelude::*;
use crate::error::{checked, check_status, TxResult};
use crate::name::TxStr;

verus! {

/// The status word of a service that succeeded.
pub const TX_SUCCESS: u32 = 0;

/// Status word: the flags asked for are not set.
pub const TX_NO_EVENTS: u32 = 0x07;

/// Status word: the queue holds no message.
pub const TX_QUEUE_EMPTY: u32 = 0x0A;

/// Status word: the queue has no room for a message.
pub const TX_QUEUE_FULL: u32 = 0x0B;

/// Status word: the semaphore's count is zero.
pub const TX_NO_INSTANCE: u32 = 0x0D;

/// Status word: the pool has no memory for the request.
pub const TX_NO_MEMORY: u32 = 0x10;

/// Status word: another thread holds the mutex.
pub const TX_NOT_AVAILABLE: u32 = 0x1D;

/// Wait word: come back at once.
pub const TX_NO_WAIT: u32 = 0;

/// Wait word: suspend without bound.
pub const TX_WAIT_FOREVER: u32 = 0xFFFF_FFFF;

/// Flag option: all of the flags.
pub const TX_AND: u32 = 2;

/// Flag option: all of the flags, which are cleared once seen.
pub const TX_AND_CLEAR: u32 = 3;

/// Flag option: any of the flags.
pub const TX_OR: u32 = 0;

/// Flag option: any of the flags, which are cleared once seen.
pub const TX_OR_CLEAR: u32 = 1;

/// The ticks of the kernel clock in one second.
pub const TX_TIMER_TICKS_PER_SECOND: u32 = 100;

/// The largest value that fits a word of the kernel.
pub const TX_WORD_MAX: usize = 0xFFFF_FFFF;

/// One service asked of the kernel. Control blocks, memory and functions are given by
/// their addresses; sizes, counts, options and ticks are words of the kernel. Sizes are
/// counted in bytes, but for the size of a queue's message.
#[derive(Clone, Copy, Debug, PartialEq, Eq)]
pub enum KernelCall {
    BytePoolCreate { pool: usize, name: TxStr, start: usize, size: u32 },
    ByteAllocate { pool: usize, size: u32, wait: u32 },
    ByteRelease { memory: usize },
    BytePoolDelete { pool: usize },
    BlockPoolCreate { pool: usize, name: TxStr, block_size: u32, start: usize, size: u32 },
    BlockAllocate { pool: usize, wait: u32 },
    BlockRelease { memory: usize },
    BlockPoolPrioritize { pool: usize },
    BlockPoolDelete { pool: usize },
    MutexCreate { mutex: usize, name: TxStr, inherit: u32 },
    MutexGet { mutex: usize, wait: u32 },
    MutexPut { mutex: usize },
    MutexDelete { mutex: usize },
    EventFlagsCreate { group: usize, name: TxStr },
    EventFlagsSet { group: usize, flags: u32, option: u32 },
    EventFlagsGet { group: usize, requested: u32, option: u32, wait: u32 },
    EventFlagsDelete { group: usize },
    EventFlagsSetNotify { group: usize, notify: usize },
    /// Creates a queue over the `size` bytes that start at `start`. The size of one
    /// message, `message_size`, is counted in words of thirty-two bits, from one to
    /// sixteen; the size of the memory, `size`, is counted in bytes.
    QueueCreate { queue: usize, name: TxStr, message_size: u32, start: usize, size: u32 },
    SemaphoreCreate { semaphore: usize, name: TxStr, initial_count: u32 },
    SemaphoreDelete { semaphore: usize },
    SemaphoreGet { semaphore: usize, wait: u32 },
    SemaphorePut { semaphore: usize },
    SemaphorePrioritize { semaphore: usize },
    SemaphorePutNotify { semaphore: usize, notify: usize },
    ThreadCreate {
        thread: usize,
        name: TxStr,
        entry: usize,
        input: u32,
        stack_start: usize,
        stack_size: u32,
        priority: u32,
        preempt_threshold: u32,
        time_slice: u32,
        auto_start: u32,
    },
    ThreadResume { thread: usize },
    ThreadSuspend { thread: usize },
    ThreadDelete { thread: usize },
    ThreadSleep { ticks: u32 },
    TimerCreate {
        timer: usize,
        name: TxStr,
        expiration: usize,
        input: u32,
        initial_ticks: u32,
        reschedule_ticks: u32,
        auto_activate: u32,
    },
}

/// What the kernel hands back for one service.
#[derive(Clone, Copy, Debug, PartialEq, Eq)]
pub struct KernelReply {
    /// The status word of the service.
    pub status: u32,
    /// The address that an allocation service stored for its caller.
    pub address: usize,
    /// The word that a retrieval service stored for its caller.
    pub value: u32,
}

/// The kernel entry `kernel` may be asked for `call`.
pub open spec fn accepts<K: Fn(KernelCall) -> KernelReply>(kernel: &K, call: KernelCall) -> bool {
    kernel.requires((call,))
}

/// `reply` is something that the kernel entry `kernel` may hand back for `call`.
pub open spec fn replied<K: Fn(KernelCall) -> KernelReply>(
    kernel: &K,
    call: KernelCall,
    reply: KernelReply,
) -> bool {
    kernel.ensures((call,), reply)
}

/// `r` is what the caller of `call` gets for a service without a value: the kernel was
/// asked for exactly `call`, and `r` is what the status word of its reply means.
pub open spec fn call_checked<K: Fn(KernelCall) -> KernelReply>(
    kernel: &K,
    call: KernelCall,
    r: TxResult,
) -> bool {
    exists|reply: KernelReply| #[trigger] replied(kernel, call, reply) && r == checked(reply.status)
}

/// Asks the kernel for one service and hands back its reply as it came.
pub fn invoke<K: Fn(KernelCall) -> KernelReply>(
    kernel: &K,
    call: KernelCall,
) -> (reply: KernelReply)
    requires
        accepts(kernel, call),
    ensures
        replied(kernel, call, reply),
{
    kernel(call)
}

/// The checked call: asks the kernel for one service and turns the status word of the
/// reply into success or into the error that the word stands for. Nothing is retried.
pub fn checked_call<K: Fn(KernelCall) -> KernelReply>(
    kernel: &K,
    call: KernelCall,
) -> (r: TxResult)
    requires
        accepts(kernel, call),
    ensures
        call_checked(kernel, call, r),
{
    let reply = invoke(kernel, call);
    check_status(reply.status)
}

/// What a checked call comes back with is decided by the status word alone: where the
/// kernel answers a service with one status only, the caller gets what that status means.
pub proof fn lemma_call_checked_by_status<K: Fn(KernelCall) -> KernelReply>(
    kernel: &K,
    call: KernelCall,
    status: u32,
    r: TxResult,
)
    requires
        call_checked(kernel, call, r),
        forall|reply: KernelReply| #[trigger]
            replied(kernel, call, reply) ==> reply.status == status,
    ensures
        r == checked(status),
{
}

/// The word of the kernel that holds `value`, where one does.
pub open spec fn word_of(value: usize) -> Option<u32> {
    if value <= TX_WORD_MAX {
        Some(value as u32)
    } else {
        None
    }
}

/// Fits a size or an address into a word of the kernel. A value beyond the word has none.
pub fn to_word(value: usize) -> (word: Option<u32>)
    ensures
        word == word_of(value),
{
    if value <= TX_WORD_MAX {
        Some(value as u32)
    } else {
        None
    }
}

} // verus!
