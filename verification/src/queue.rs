//! The typed queue: a bounded channel of messages of one type, with a sending and a
//! receiving side.

use vstd::prelude::*;
use vstd::layout::size_of;
use core::marker::PhantomData;
use crate::error::{check_status, checked, error_for, error_of, TxError, TxResult};
use crate::kernel::{
    accepts, call_checked, to_word, word_of, KernelCall, KernelReply, TX_QUEUE_EMPTY,
    TX_QUEUE_FULL,
};
use crate::pool::MemoryBlock;
use crate::resource::{ControlBlock, Lifecycle};
use crate::WaitOption;
use crate::name::TxStr;

verus! {

/// The most words of thirty-two bits that one message may have.
pub const MAX_MESSAGE_WORDS: usize = 16;

/// The bytes of one word of the queue transport.
pub const WORD_BYTES: usize = 4;

/// A message type fits the queue transport if it is at least one word of thirty-two bits
/// and at most sixteen of them.
pub open spec fn slot_size_ok<T>() -> bool {
    size_of::<u32>() <= size_of::<T>() <= MAX_MESSAGE_WORDS * size_of::<u32>()
}

/// The words of thirty-two bits that a message of type `T` takes in a queue: its size in
/// bytes, rounded up to whole words. This is the slot size that the kernel is told.
pub open spec fn message_words<T>() -> nat {
    ((size_of::<T>() + WORD_BYTES - 1) / (WORD_BYTES as int)) as nat
}

/// The sending service: the message is copied into the queue at `queue`.
pub struct QueueSend<T> {
    pub queue: usize,
    pub message: T,
    pub wait: u32,
}

/// The receiving service: the oldest message is taken from the queue at `queue`.
pub struct QueueReceive {
    pub queue: usize,
    pub wait: u32,
}

/// What receiving comes back with: the message that the kernel handed over, or the error
/// that its failure status stands for.
pub open spec fn received<T>(reply: Result<T, u32>) -> Result<T, TxError> {
    match reply {
        Ok(message) => Ok(message),
        Err(status) => Err(error_of(status)),
    }
}

/// What sending comes back with: what the status word of the sending service means.
pub open spec fn sent<T, K: Fn(QueueSend<T>) -> u32>(
    kernel: &K,
    request: QueueSend<T>,
    r: TxResult,
) -> bool {
    exists|status: u32| #[trigger] kernel.ensures((request,), status) && r == checked(status)
}

/// What receiving comes back with: what the reply of the receiving service means.
pub open spec fn taken<T, K: Fn(QueueReceive) -> Result<T, u32>>(
    kernel: &K,
    request: QueueReceive,
    r: Result<T, TxError>,
) -> bool {
    exists|reply: Result<T, u32>| #[trigger]
        kernel.ensures((request,), reply) && r == received(reply)
}

/// A queue of messages of type `T` that the kernel has not been given yet.
pub struct Queue<T> {
    block: ControlBlock,
    message: PhantomData<T>,
}

impl<T> Queue<T> {
    /// The resource object of the queue.
    pub closed spec fn control(&self) -> ControlBlock {
        self.block
    }

    /// The creating service for a queue at `storage` over `queue_memory`, if the size of
    /// a message and the length of the memory fit a word of the kernel each. The size of
    /// a message is handed over in words of thirty-two bits, as many as hold a `T`; the
    /// length of the memory in bytes.
    pub open spec fn create_call(
        storage: usize,
        name: TxStr,
        queue_memory: MemoryBlock,
    ) -> Option<KernelCall> {
        match (word_of(message_words::<T>() as usize), word_of(queue_memory@.len)) {
            (Some(message_size), Some(size)) => Some(
                KernelCall::QueueCreate {
                    queue: storage,
                    name,
                    message_size,
                    start: queue_memory@.start,
                    size,
                },
            ),
            _ => None,
        }
    }

    /// Whether messages of type `T` fit the queue transport.
    pub fn size_ok() -> (ok: bool)
        ensures
            ok == slot_size_ok::<T>(),
    {
        let word: usize = core::mem::size_of::<u32>();
        let message: usize = core::mem::size_of::<T>();
        proof {
            broadcast use vstd::layout::layout_of_primitives;

        }
        word <= message && message <= MAX_MESSAGE_WORDS * word
    }

    /// The words of thirty-two bits that one message takes in the queue.
    pub fn words() -> (words: usize)
        ensures
            words == message_words::<T>(),
    {
        let bytes: usize = core::mem::size_of::<T>();
        if bytes % WORD_BYTES == 0 {
            bytes / WORD_BYTES
        } else {
            bytes / WORD_BYTES + 1
        }
    }

    /// A queue that is not initialized. There is no queue for a message type that does
    /// not fit the transport: the call is not for such a type.
    pub fn new() -> (queue: Queue<T>)
        requires
            slot_size_ok::<T>(),
        ensures
            queue.control().lifecycle() == Lifecycle::Uninitialized,
    {
        Queue { block: ControlBlock::new(), message: PhantomData }
    }

    /// Whether the queue has been initialized.
    pub fn is_initialized(&self) -> (done: bool)
        ensures
            done == (self.control().lifecycle() != Lifecycle::Uninitialized),
    {
        !self.block.is_uninitialized()
    }

    /// Creates the queue, whose control block lies at `storage`, over `queue_memory`,
    /// which is consumed, and hands back its two sides. Each slot of the queue has the
    /// whole words that hold one `T`, so a queue of one-word messages over sixty-four
    /// bytes has sixteen slots. A queue is initialized once: the call is not for a queue
    /// that is initialized already. A memory block too long for a word of the kernel is
    /// refused with a size error before the kernel is asked.
    pub fn initialize<K: Fn(KernelCall) -> KernelReply>(
        &mut self,
        storage: usize,
        name: TxStr,
        queue_memory: MemoryBlock,
        kernel: &K,
    ) -> (r: Result<(QueueSender<T>, QueueReceiver<T>), TxError>)
        requires
            old(self).control().lifecycle() == Lifecycle::Uninitialized,
            storage != 0,
            Self::create_call(storage, name, queue_memory) matches Some(call) ==> accepts(
                kernel,
                call,
            ),
        ensures
            old(self).control().step(final(self).control()),
            match Self::create_call(storage, name, queue_memory) {
                Some(call) => exists|done: TxResult| #[trigger]
                    call_checked(kernel, call, done) && match done {
                        Ok(()) => r matches Ok(sides) && sides.0.address() == storage
                            && sides.1.address() == storage
                            && final(self).control().lifecycle() == Lifecycle::Live
                            && final(self).control().address() == storage,
                        Err(error) => r matches Err(e) && e == error && final(self).control()
                            == old(self).control(),
                    },
                None => r matches Err(e) && e == TxError::SizeError && final(self).control()
                    == old(self).control(),
            },
    {
        let queue_memory = queue_memory.consume();
        match (to_word(Self::words()), to_word(queue_memory.len)) {
            (Some(message_size), Some(size)) => {
                let call = KernelCall::QueueCreate {
                    queue: storage,
                    name,
                    message_size,
                    start: queue_memory.start,
                    size,
                };
                match self.block.create(storage, call, kernel) {
                    Ok(()) => Ok(
                        (QueueSender(storage, PhantomData), QueueReceiver(storage, PhantomData)),
                    ),
                    Err(error) => Err(error),
                }
            },
            _ => Err(TxError::SizeError),
        }
    }
}

/// The sending side of a queue. It can be copied freely, and cannot receive.
pub struct QueueSender<T>(usize, PhantomData<T>);

/// The receiving side of a queue. It can be copied freely, and cannot send.
pub struct QueueReceiver<T>(usize, PhantomData<T>);

impl<T> Clone for QueueSender<T> {
    /// Another sender for the same queue.
    fn clone(&self) -> (sender: QueueSender<T>)
        ensures
            sender == *self,
    {
        proof {
            use_type_invariant(self);
        }
        QueueSender(self.0, PhantomData)
    }
}

impl<T> Clone for QueueReceiver<T> {
    /// Another receiver for the same queue.
    fn clone(&self) -> (receiver: QueueReceiver<T>)
        ensures
            receiver == *self,
    {
        proof {
            use_type_invariant(self);
        }
        QueueReceiver(self.0, PhantomData)
    }
}

impl<T> QueueSender<T> {
    #[verifier::type_invariant]
    spec fn not_null(self) -> bool {
        self.0 != 0
    }

    /// The address of the queue that this side belongs to.
    pub closed spec fn address(&self) -> usize {
        self.0
    }

    /// Copies `message` into the queue. With a full queue the caller waits as `wait`
    /// says: without bound, or not at all, and then with the kernel's error. Here the
    /// kernel entry is the sending service itself, typed by the message.
    pub fn send<K: Fn(QueueSend<T>) -> u32>(
        &self,
        message: T,
        wait: WaitOption,
        kernel: &K,
    ) -> (r: TxResult)
        requires
            kernel.requires((QueueSend { queue: self.address(), message, wait: wait.word() },)),
        ensures
            sent(kernel, QueueSend { queue: self.address(), message, wait: wait.word() }, r),
    {
        let status: u32 = kernel(QueueSend { queue: self.0, message, wait: wait.code() });
        check_status(status)
    }
}

impl<T> QueueReceiver<T> {
    #[verifier::type_invariant]
    spec fn not_null(self) -> bool {
        self.0 != 0
    }

    /// The address of the queue that this side belongs to.
    pub closed spec fn address(&self) -> usize {
        self.0
    }

    /// Takes the oldest message from the queue. With an empty queue the caller waits as
    /// `wait` says: without bound, or not at all, and then with the kernel's error. Here
    /// the kernel entry is the receiving service itself, typed by the message: it hands
    /// back the message, or its failure status.
    pub fn receive<K: Fn(QueueReceive) -> Result<T, u32>>(
        &self,
        wait: WaitOption,
        kernel: &K,
    ) -> (r: Result<T, TxError>)
        requires
            kernel.requires((QueueReceive { queue: self.address(), wait: wait.word() },)),
        ensures
            taken(kernel, QueueReceive { queue: self.address(), wait: wait.word() }, r),
    {
        match kernel(QueueReceive { queue: self.0, wait: wait.code() }) {
            Ok(message) => Ok(message),
            Err(status) => Err(error_for(status)),
        }
    }
}

/// A slot holds its message and has no word to spare. For a message type that fits the
/// transport it has from one to sixteen words, which is what the kernel takes: one word
/// for a type of four bytes, sixteen for one of sixty-four. A type of at least one word
/// fits the transport exactly if its slot has no more than sixteen.
pub proof fn lemma_message_words<T>()
    ensures
        message_words::<T>() * WORD_BYTES >= size_of::<T>(),
        size_of::<T>() > 0 ==> (message_words::<T>() - 1) * WORD_BYTES < size_of::<T>(),
        slot_size_ok::<T>() ==> 1 <= message_words::<T>() <= MAX_MESSAGE_WORDS,
        size_of::<T>() >= WORD_BYTES ==> (slot_size_ok::<T>() <==> message_words::<T>()
            <= MAX_MESSAGE_WORDS),
        size_of::<T>() == 4 ==> message_words::<T>() == 1,
        size_of::<T>() == 64 ==> message_words::<T>() == 16,
        size_of::<T>() % WORD_BYTES as nat == 0 ==> message_words::<T>() * WORD_BYTES
            == size_of::<T>(),
{
    broadcast use vstd::layout::layout_of_primitives;

}

/// A message type fits the transport exactly if it has from four to sixty-four bytes: a
/// type of one word fits and so does one of sixteen words, while none that is shorter
/// than a word or longer than sixteen does.
pub proof fn lemma_slot_size_bounds<T>()
    ensures
        slot_size_ok::<T>() <==> 4 <= size_of::<T>() <= 64,
        size_of::<T>() == 4 ==> slot_size_ok::<T>(),
        size_of::<T>() == 16 * 4 ==> slot_size_ok::<T>(),
        size_of::<T>() == 0 ==> !slot_size_ok::<T>(),
        size_of::<T>() == 17 * 4 ==> !slot_size_ok::<T>(),
{
    broadcast use vstd::layout::layout_of_primitives;

}

/// Receiving without waiting never suspends the caller: the kernel is asked with the
/// wait word that forbids it, and where it finds the queue empty the caller gets
/// [`TxError::QueueEmpty`].
pub proof fn lemma_receive_no_wait<T, K: Fn(QueueReceive) -> Result<T, u32>>(
    kernel: &K,
    queue: usize,
    r: Result<T, TxError>,
)
    requires
        taken(kernel, QueueReceive { queue, wait: WaitOption::NoWait.word() }, r),
        forall|reply: Result<T, u32>| #[trigger]
            kernel.ensures((QueueReceive { queue, wait: 0 },), reply) ==> reply == Err::<T, u32>(
                TX_QUEUE_EMPTY,
            ),
    ensures
        WaitOption::NoWait.word() == 0,
        r == Err::<T, TxError>(TxError::QueueEmpty),
{
}

/// Sending without waiting never suspends the caller: the kernel is asked with the wait
/// word that forbids it, and where it finds the queue full the caller gets
/// [`TxError::QueueFull`].
pub proof fn lemma_send_no_wait<T, K: Fn(QueueSend<T>) -> u32>(
    kernel: &K,
    queue: usize,
    message: T,
    r: TxResult,
)
    requires
        sent(kernel, QueueSend { queue, message, wait: WaitOption::NoWait.word() }, r),
        forall|status: u32| #[trigger]
            kernel.ensures((QueueSend { queue, message, wait: 0 },), status) ==> status
                == TX_QUEUE_FULL,
    ensures
        WaitOption::NoWait.word() == 0,
        r == Err::<(), TxError>(TxError::QueueFull),
{
}

} // verus!
