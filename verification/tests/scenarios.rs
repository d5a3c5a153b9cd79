use std::cell::{Cell, RefCell};
use std::collections::{HashMap, VecDeque};
use threadx_rs::allocator::ThreadXAllocator;
use threadx_rs::error::TxError;
use threadx_rs::event_flags::{EventFlagsGroup, EventFlagsGroupHandle, GetOption, SetOption};
use threadx_rs::kernel::{KernelCall, KernelReply};
use threadx_rs::mutex::{Mutex, MutexError};
use threadx_rs::name::TxStr;
use threadx_rs::pool::{BlockPool, BytePool, Region};
use threadx_rs::queue::{Queue, QueueReceive, QueueSend};
use threadx_rs::semaphore::{Semaphore, SemaphoreOwner, SemaphoreUser};
use threadx_rs::WaitOption;

const NO_WAIT: u32 = 0;

fn name(text: &'static str) -> TxStr {
    TxStr::new(text).unwrap()
}

struct BytePoolState {
    next: usize,
    end: usize,
}

struct BlockPoolState {
    block_size: usize,
    free: Vec<usize>,
}

/// A stand-in for the kernel that serves requests from one thread at a time and never
/// suspends: a request that would have to wait fails as it does under "no wait".
struct Kernel {
    thread: Cell<u32>,
    byte_pools: RefCell<HashMap<usize, BytePoolState>>,
    block_pools: RefCell<HashMap<usize, BlockPoolState>>,
    semaphores: RefCell<HashMap<usize, u32>>,
    mutexes: RefCell<HashMap<usize, Option<(u32, u32)>>>,
    groups: RefCell<HashMap<usize, u32>>,
}

impl Kernel {
    fn new() -> Kernel {
        Kernel {
            thread: Cell::new(1),
            byte_pools: RefCell::new(HashMap::new()),
            block_pools: RefCell::new(HashMap::new()),
            semaphores: RefCell::new(HashMap::new()),
            mutexes: RefCell::new(HashMap::new()),
            groups: RefCell::new(HashMap::new()),
        }
    }

    fn status(status: u32) -> KernelReply {
        KernelReply { status, address: 0, value: 0 }
    }

    fn serve(&self, call: KernelCall) -> KernelReply {
        match call {
            KernelCall::BytePoolCreate { pool, start, size, .. } => {
                if size < 100 {
                    return Kernel::status(0x05);
                }
                let state = BytePoolState { next: start, end: start + size as usize };
                self.byte_pools.borrow_mut().insert(pool, state);
                Kernel::status(0)
            }
            KernelCall::ByteAllocate { pool, size, wait } => {
                let mut pools = self.byte_pools.borrow_mut();
                let state = match pools.get_mut(&pool) {
                    Some(state) => state,
                    None => return Kernel::status(0x02),
                };
                if size == 0 {
                    return Kernel::status(0x05);
                }
                if state.next + size as usize > state.end {
                    assert_eq!(wait, NO_WAIT, "the stand-in cannot suspend a thread");
                    return Kernel::status(0x10);
                }
                let address = state.next;
                state.next += size as usize;
                KernelReply { status: 0, address, value: 0 }
            }
            KernelCall::ByteRelease { .. } => Kernel::status(0),
            KernelCall::BytePoolDelete { pool } => {
                match self.byte_pools.borrow_mut().remove(&pool) {
                    Some(_) => Kernel::status(0),
                    None => Kernel::status(0x02),
                }
            }
            KernelCall::BlockPoolCreate { pool, block_size, start, size, .. } => {
                if block_size == 0 || size < block_size {
                    return Kernel::status(0x05);
                }
                let count = (size / block_size) as usize;
                let free = (0..count).rev().map(|i| start + i * block_size as usize).collect();
                let state = BlockPoolState { block_size: block_size as usize, free };
                self.block_pools.borrow_mut().insert(pool, state);
                Kernel::status(0)
            }
            KernelCall::BlockAllocate { pool, wait } => {
                let mut pools = self.block_pools.borrow_mut();
                let state = match pools.get_mut(&pool) {
                    Some(state) => state,
                    None => return Kernel::status(0x02),
                };
                match state.free.pop() {
                    Some(address) => KernelReply { status: 0, address, value: 0 },
                    None => {
                        assert_eq!(wait, NO_WAIT, "the stand-in cannot suspend a thread");
                        Kernel::status(0x10)
                    }
                }
            }
            KernelCall::BlockRelease { memory } => {
                let mut pools = self.block_pools.borrow_mut();
                for state in pools.values_mut() {
                    let first = state.free.iter().chain([&memory]).min().copied().unwrap();
                    if (memory - first) % state.block_size == 0 {
                        state.free.push(memory);
                        return Kernel::status(0);
                    }
                }
                Kernel::status(0x03)
            }
            KernelCall::SemaphoreCreate { semaphore, initial_count, .. } => {
                self.semaphores.borrow_mut().insert(semaphore, initial_count);
                Kernel::status(0)
            }
            KernelCall::SemaphoreGet { semaphore, wait } => {
                let mut semaphores = self.semaphores.borrow_mut();
                match semaphores.get_mut(&semaphore) {
                    Some(count) if *count > 0 => {
                        *count -= 1;
                        Kernel::status(0)
                    }
                    Some(_) => {
                        assert_eq!(wait, NO_WAIT, "the stand-in cannot suspend a thread");
                        Kernel::status(0x0D)
                    }
                    None => Kernel::status(0x0C),
                }
            }
            KernelCall::SemaphorePut { semaphore } => {
                let mut semaphores = self.semaphores.borrow_mut();
                match semaphores.get_mut(&semaphore) {
                    Some(count) => {
                        *count += 1;
                        Kernel::status(0)
                    }
                    None => Kernel::status(0x0C),
                }
            }
            KernelCall::SemaphoreDelete { semaphore } => {
                match self.semaphores.borrow_mut().remove(&semaphore) {
                    Some(_) => Kernel::status(0),
                    None => Kernel::status(0x0C),
                }
            }
            KernelCall::MutexCreate { mutex, .. } => {
                self.mutexes.borrow_mut().insert(mutex, None);
                Kernel::status(0)
            }
            KernelCall::MutexGet { mutex, wait } => {
                let mut mutexes = self.mutexes.borrow_mut();
                let me = self.thread.get();
                match mutexes.get_mut(&mutex) {
                    Some(owner) => match *owner {
                        None => {
                            *owner = Some((me, 1));
                            Kernel::status(0)
                        }
                        Some((thread, count)) if thread == me => {
                            *owner = Some((me, count + 1));
                            Kernel::status(0)
                        }
                        Some(_) => {
                            assert_eq!(wait, NO_WAIT, "the stand-in cannot suspend a thread");
                            Kernel::status(0x1D)
                        }
                    },
                    None => Kernel::status(0x1C),
                }
            }
            KernelCall::MutexPut { mutex } => {
                let mut mutexes = self.mutexes.borrow_mut();
                let me = self.thread.get();
                match mutexes.get_mut(&mutex) {
                    Some(owner) => match *owner {
                        Some((thread, count)) if thread == me => {
                            *owner = if count > 1 { Some((me, count - 1)) } else { None };
                            Kernel::status(0)
                        }
                        _ => Kernel::status(0x1E),
                    },
                    None => Kernel::status(0x1C),
                }
            }
            KernelCall::MutexDelete { mutex } => match self.mutexes.borrow_mut().remove(&mutex) {
                Some(_) => Kernel::status(0),
                None => Kernel::status(0x1C),
            },
            KernelCall::EventFlagsCreate { group, .. } => {
                self.groups.borrow_mut().insert(group, 0);
                Kernel::status(0)
            }
            KernelCall::EventFlagsSet { group, flags, option } => {
                let mut groups = self.groups.borrow_mut();
                match groups.get_mut(&group) {
                    Some(current) => {
                        match option {
                            0 => *current |= flags,
                            2 => *current &= flags,
                            _ => return Kernel::status(0x08),
                        }
                        Kernel::status(0)
                    }
                    None => Kernel::status(0x06),
                }
            }
            KernelCall::EventFlagsGet { group, requested, option, wait } => {
                let mut groups = self.groups.borrow_mut();
                let current = match groups.get_mut(&group) {
                    Some(current) => current,
                    None => return Kernel::status(0x06),
                };
                let all = option & 2 != 0;
                let clear = option & 1 != 0;
                let found = *current & requested;
                let satisfied = if all { found == requested } else { found != 0 };
                if !satisfied {
                    assert_eq!(wait, NO_WAIT, "the stand-in cannot suspend a thread");
                    return Kernel::status(0x07);
                }
                let seen = *current;
                if clear {
                    *current &= !(if all { requested } else { found });
                }
                KernelReply { status: 0, address: 0, value: seen }
            }
            KernelCall::EventFlagsDelete { group } => match self.groups.borrow_mut().remove(&group)
            {
                Some(_) => Kernel::status(0),
                None => Kernel::status(0x06),
            },
            _ => Kernel::status(0xFF),
        }
    }
}

/// The kernel entry of `kernel` for a caller that waits: the stand-in serves the request
/// as if it did not have to wait.
fn make_waiting(kernel: &Kernel) -> impl Fn(KernelCall) -> KernelReply + '_ {
    move |call: KernelCall| match call {
        KernelCall::ByteAllocate { pool, size, wait } => {
            assert_eq!(wait, 0xFFFF_FFFF);
            kernel.serve(KernelCall::ByteAllocate { pool, size, wait: NO_WAIT })
        }
        other => kernel.serve(other),
    }
}

/// A stand-in for the queue transport of the kernel, for messages of type `T`.
struct Channel<T> {
    capacity: usize,
    messages: RefCell<VecDeque<T>>,
}

impl<T> Channel<T> {
    fn new(capacity: usize) -> Channel<T> {
        Channel { capacity, messages: RefCell::new(VecDeque::new()) }
    }

    fn send(&self, request: QueueSend<T>) -> u32 {
        let mut messages = self.messages.borrow_mut();
        if messages.len() == self.capacity {
            assert_eq!(request.wait, NO_WAIT, "the stand-in cannot suspend a thread");
            return 0x0B;
        }
        messages.push_back(request.message);
        0
    }

    fn receive(&self, request: QueueReceive) -> Result<T, u32> {
        match self.messages.borrow_mut().pop_front() {
            Some(message) => Ok(message),
            None => {
                assert_eq!(request.wait, NO_WAIT, "the stand-in cannot suspend a thread");
                Err(0x0A)
            }
        }
    }
}

/// A stand-in for the creating service of a queue: it takes messages of one to sixteen
/// words and writes down what it was asked.
struct QueueMaker {
    asked: RefCell<Option<KernelCall>>,
}

impl QueueMaker {
    fn new() -> QueueMaker {
        QueueMaker { asked: RefCell::new(None) }
    }

    fn serve(&self, call: KernelCall) -> KernelReply {
        match call {
            KernelCall::QueueCreate { message_size, size, .. } => {
                if message_size < 1 || message_size > 16 || size < message_size * 4 {
                    return Kernel::status(0x05);
                }
                *self.asked.borrow_mut() = Some(call);
                Kernel::status(0)
            }
            _ => Kernel::status(0xFF),
        }
    }

    /// The queue that was made, with room for as many messages as its memory has slots.
    fn channel<T>(&self) -> Channel<T> {
        match *self.asked.borrow() {
            Some(KernelCall::QueueCreate { message_size, size, .. }) => {
                Channel::new((size / (message_size * 4)) as usize)
            }
            _ => panic!("no queue was made"),
        }
    }
}

#[test]
fn queue_of_words_over_sixty_four_bytes_holds_sixteen_messages() {
    let kernel = Kernel::new();
    let entry = |call: KernelCall| kernel.serve(call);
    let maker = QueueMaker::new();
    let make = |call: KernelCall| maker.serve(call);
    let mut pool = BytePool::new();
    let pool_memory = Region::new(0x2000_0000, 1024);
    let handle = pool.initialize(0x300, name("pool\0"), &pool_memory, &entry).unwrap();
    let memory = handle.allocate(64, true, &make_waiting(&kernel)).unwrap();
    let mut queue: Queue<u32> = Queue::new();
    let (sender, receiver) = queue.initialize(0x400, name("queue\0"), memory, &make).unwrap();

    let channel: Channel<u32> = maker.channel();
    assert_eq!(channel.capacity, 16);
    let send = |request: QueueSend<u32>| channel.send(request);
    let receive = |request: QueueReceive| channel.receive(request);
    for i in 0..16u32 {
        assert_eq!(sender.send(i, WaitOption::NoWait, &send), Ok(()));
    }
    assert_eq!(sender.send(16, WaitOption::NoWait, &send), Err(TxError::QueueFull));
    for i in 0..16u32 {
        assert_eq!(receiver.receive(WaitOption::NoWait, &receive), Ok(i));
    }
    assert_eq!(receiver.receive(WaitOption::NoWait, &receive), Err(TxError::QueueEmpty));
}

#[test]
fn queue_of_sixteen_word_messages_is_made_and_carries_them() {
    let kernel = Kernel::new();
    let entry = |call: KernelCall| kernel.serve(call);
    let maker = QueueMaker::new();
    let make = |call: KernelCall| maker.serve(call);
    let mut pool = BytePool::new();
    let pool_memory = Region::new(0x2000_0000, 1024);
    let handle = pool.initialize(0x300, name("pool\0"), &pool_memory, &entry).unwrap();
    let memory = handle.allocate(256, true, &make_waiting(&kernel)).unwrap();
    let mut queue: Queue<[u32; 16]> = Queue::new();
    let (sender, receiver) = queue.initialize(0x400, name("queue\0"), memory, &make).unwrap();

    let channel: Channel<[u32; 16]> = maker.channel();
    assert_eq!(channel.capacity, 4);
    let send = |request: QueueSend<[u32; 16]>| channel.send(request);
    let receive = |request: QueueReceive| channel.receive(request);
    assert_eq!(sender.send([7u32; 16], WaitOption::NoWait, &send), Ok(()));
    assert_eq!(receiver.receive(WaitOption::NoWait, &receive), Ok([7u32; 16]));
    assert_eq!(receiver.receive(WaitOption::NoWait, &receive), Err(TxError::QueueEmpty));
}

#[test]
fn semaphore_get_and_put_move_the_count() {
    let kernel = Kernel::new();
    let entry = |call: KernelCall| kernel.serve(call);
    let mut semaphore = Semaphore::new();
    let owner = semaphore.initialize(0x100, name("sem\0"), 2, &entry).unwrap();
    let user = owner.get_semaphore_user();
    assert_eq!(user.get(WaitOption::NoWait, &entry), Ok(()));
    assert_eq!(user.get(WaitOption::WaitForever, &entry), Ok(()));
    assert_eq!(user.get(WaitOption::NoWait, &entry), Err(TxError::NoInstance));
    assert_eq!(user.put(&entry), Ok(()));
    assert_eq!(user.get(WaitOption::NoWait, &entry), Ok(()));
    assert_eq!(kernel.semaphores.borrow()[&0x100], 0);
}

#[test]
fn semaphore_no_wait_on_zero_count_is_no_instance() {
    let kernel = Kernel::new();
    let entry = |call: KernelCall| kernel.serve(call);
    let mut semaphore = Semaphore::new();
    let owner = semaphore.initialize(0x100, name("sem\0"), 0, &entry).unwrap();
    let user = owner.get_semaphore_user();
    assert_eq!(user.get(WaitOption::NoWait, &entry), Err(TxError::NoInstance));
    assert_eq!(user.get(WaitOption::NoWait, &entry), Err(TxError::NoInstance));
}

#[test]
fn only_the_owner_deletes_and_users_share_the_semaphore() {
    let kernel = Kernel::new();
    let entry = |call: KernelCall| kernel.serve(call);
    let mut semaphore = Semaphore::new();
    let owner = semaphore.initialize(0x100, name("sem\0"), 0, &entry).unwrap();
    let first = owner.get_semaphore_user();
    let second = owner.get_semaphore_user();
    assert_eq!(first.put(&entry), Ok(()));
    assert_eq!(second.get(WaitOption::NoWait, &entry), Ok(()));
    assert_eq!(owner.delete(&entry), Ok(()));
    assert_eq!(first.put(&entry), Err(TxError::SemaphoreError));
    assert!(semaphore.is_initialized());
}

#[test]
fn mutex_round_trip_adds_one_per_round() {
    let kernel = Kernel::new();
    let entry = |call: KernelCall| kernel.serve(call);
    let mut mutex = Mutex::new(10i32);
    assert_eq!(mutex.initialize(0x200, name("test\0"), true, &entry), Ok(()));
    let rounds = 25;
    for round in 0..rounds {
        kernel.thread.set(1 + round % 3);
        let guard = mutex.lock(WaitOption::WaitForever, &entry).unwrap();
        *guard.protected = *guard.protected + 1;
        assert_eq!(guard.unlock(&entry), Ok(()));
    }
    let guard = mutex.lock(WaitOption::NoWait, &entry).unwrap();
    assert_eq!(*guard.protected, 10 + rounds as i32);
    assert_eq!(guard.unlock(&entry), Ok(()));
}

#[test]
fn mutex_no_wait_on_a_held_lock_is_not_available() {
    let kernel = Kernel::new();
    let entry = |call: KernelCall| kernel.serve(call);
    let mut mutex = Mutex::new(0u8);
    assert_eq!(mutex.initialize(0x200, name("test\0"), false, &entry), Ok(()));
    // another thread takes the lock behind this layer's back
    kernel.thread.set(2);
    assert_eq!(kernel.serve(KernelCall::MutexGet { mutex: 0x200, wait: 0 }).status, 0);
    kernel.thread.set(1);
    match mutex.lock(WaitOption::NoWait, &entry) {
        Err(error) => assert_eq!(error, MutexError::MutexError(TxError::NotAvailable)),
        Ok(_) => panic!("the lock is held by another thread"),
    }
    kernel.thread.set(2);
    assert_eq!(kernel.serve(KernelCall::MutexPut { mutex: 0x200 }).status, 0);
    kernel.thread.set(1);
    assert!(mutex.lock(WaitOption::NoWait, &entry).is_ok());
}

#[test]
fn mutex_that_was_never_initialized_is_poisoned() {
    let asked = Cell::new(0);
    let entry = |_call: KernelCall| {
        asked.set(asked.get() + 1);
        Kernel::status(0)
    };
    let mut mutex = Mutex::new(5u32);
    assert!(!mutex.is_initialized());
    match mutex.lock(WaitOption::WaitForever, &entry) {
        Err(error) => assert_eq!(error, MutexError::PoisonError),
        Ok(_) => panic!("a mutex that is not initialized cannot be locked"),
    }
    assert_eq!(asked.get(), 0);
}

#[test]
fn mutex_that_is_torn_down_is_poisoned() {
    let kernel = Kernel::new();
    let entry = |call: KernelCall| kernel.serve(call);
    let mut mutex = Mutex::new(5u32);
    assert_eq!(mutex.initialize(0x200, name("test\0"), true, &entry), Ok(()));
    assert_eq!(mutex.delete(&entry), Ok(()));
    assert!(matches!(mutex.lock(WaitOption::NoWait, &entry), Err(MutexError::PoisonError)));
    assert_eq!(mutex.delete(&entry), Err(TxError::MutexError));
    assert!(mutex.is_initialized());
}

#[test]
fn mutex_teardown_that_the_kernel_refuses_still_poisons() {
    let entry = |call: KernelCall| match call {
        KernelCall::MutexDelete { .. } => Kernel::status(0x13),
        _ => Kernel::status(0),
    };
    let mut mutex = Mutex::new(5u32);
    assert_eq!(mutex.initialize(0x200, name("test\0"), true, &entry), Ok(()));
    assert_eq!(mutex.delete(&entry), Err(TxError::CallerError));
    assert!(matches!(mutex.lock(WaitOption::NoWait, &entry), Err(MutexError::PoisonError)));
}

#[test]
fn unlock_reports_a_refused_release() {
    let entry = |call: KernelCall| match call {
        KernelCall::MutexPut { .. } => Kernel::status(0x1E),
        _ => Kernel::status(0),
    };
    let mut mutex = Mutex::new(1u64);
    assert_eq!(mutex.initialize(0x200, name("test\0"), true, &entry), Ok(()));
    let guard = mutex.lock(WaitOption::WaitForever, &entry).unwrap();
    *guard.protected = 2;
    assert_eq!(guard.unlock(&entry), Err(TxError::NotOwned));
    let guard = mutex.lock(WaitOption::WaitForever, &entry).unwrap();
    assert_eq!(*guard.protected, 2);
}

#[test]
fn queue_keeps_the_order_of_its_messages() {
    let channel: Channel<u32> = Channel::new(8);
    let send = |request: QueueSend<u32>| channel.send(request);
    let receive = |request: QueueReceive| channel.receive(request);
    let created = |call: KernelCall| match call {
        KernelCall::QueueCreate { .. } => Kernel::status(0),
        _ => Kernel::status(0xFF),
    };
    let kernel = Kernel::new();
    let entry = |call: KernelCall| kernel.serve(call);
    let mut pool = BytePool::new();
    let pool_memory = Region::new(0x2000_0000, 1024);
    let handle = pool.initialize(0x300, name("pool\0"), &pool_memory, &entry).unwrap();
    let memory = handle.allocate(64, false, &entry).unwrap();
    let mut queue: Queue<u32> = Queue::new();
    let (sender, receiver) = queue.initialize(0x400, name("queue\0"), memory, &created).unwrap();

    let (m1, m2, m3) = (11u32, 22u32, 33u32);
    assert_eq!(sender.send(m1, WaitOption::WaitForever, &send), Ok(()));
    assert_eq!(sender.send(m2, WaitOption::WaitForever, &send), Ok(()));
    assert_eq!(sender.send(m3, WaitOption::WaitForever, &send), Ok(()));
    assert_eq!(receiver.receive(WaitOption::WaitForever, &receive), Ok(m1));
    assert_eq!(receiver.receive(WaitOption::WaitForever, &receive), Ok(m2));
    assert_eq!(receiver.receive(WaitOption::WaitForever, &receive), Ok(m3));
    assert_eq!(receiver.receive(WaitOption::NoWait, &receive), Err(TxError::QueueEmpty));
}

#[test]
fn each_message_is_received_once() {
    let channel: Channel<[u32; 2]> = Channel::new(4);
    let send = |request: QueueSend<[u32; 2]>| channel.send(request);
    let receive = |request: QueueReceive| channel.receive(request);
    let created = |_call: KernelCall| Kernel::status(0);
    let mut pool = BytePool::new();
    let handle = pool.initialize(0x300, name("pool\0"), &Region::new(0x2000_0000, 1024), &created).unwrap();
    let memory = handle.allocate(64, false, &created).unwrap();
    let mut queue: Queue<[u32; 2]> = Queue::new();
    let (sender, receiver) = queue.initialize(0x400, name("queue\0"), memory, &created).unwrap();
    let second_receiver = receiver.clone();
    let second_sender = sender.clone();

    assert_eq!(sender.send([1, 2], WaitOption::NoWait, &send), Ok(()));
    assert_eq!(second_sender.send([3, 4], WaitOption::NoWait, &send), Ok(()));
    assert_eq!(second_receiver.receive(WaitOption::NoWait, &receive), Ok([1, 2]));
    assert_eq!(receiver.receive(WaitOption::NoWait, &receive), Ok([3, 4]));
    assert_eq!(second_receiver.receive(WaitOption::NoWait, &receive), Err(TxError::QueueEmpty));
    assert_eq!(receiver.receive(WaitOption::NoWait, &receive), Err(TxError::QueueEmpty));
}

#[test]
fn full_queue_under_no_wait_is_queue_full() {
    let channel: Channel<u32> = Channel::new(2);
    let send = |request: QueueSend<u32>| channel.send(request);
    let receive = |request: QueueReceive| channel.receive(request);
    let created = |_call: KernelCall| Kernel::status(0);
    let mut pool = BytePool::new();
    let handle = pool.initialize(0x300, name("pool\0"), &Region::new(0x2000_0000, 1024), &created).unwrap();
    let memory = handle.allocate(8, false, &created).unwrap();
    let mut queue: Queue<u32> = Queue::new();
    let (sender, receiver) = queue.initialize(0x400, name("queue\0"), memory, &created).unwrap();
    assert_eq!(sender.send(1, WaitOption::NoWait, &send), Ok(()));
    assert_eq!(sender.send(2, WaitOption::NoWait, &send), Ok(()));
    assert_eq!(sender.send(3, WaitOption::NoWait, &send), Err(TxError::QueueFull));
    assert_eq!(receiver.receive(WaitOption::NoWait, &receive), Ok(1));
    assert_eq!(sender.send(3, WaitOption::NoWait, &send), Ok(()));
    assert_eq!(receiver.receive(WaitOption::NoWait, &receive), Ok(2));
    assert_eq!(receiver.receive(WaitOption::NoWait, &receive), Ok(3));
}

#[test]
fn receive_hands_on_a_failure_without_a_variant_as_unknown() {
    let receive = |_request: QueueReceive| -> Result<u32, u32> { Err(0x77) };
    let created = |_call: KernelCall| Kernel::status(0);
    let mut pool = BytePool::new();
    let handle = pool.initialize(0x300, name("pool\0"), &Region::new(0x2000_0000, 1024), &created).unwrap();
    let memory = handle.allocate(8, false, &created).unwrap();
    let mut queue: Queue<u32> = Queue::new();
    let (_sender, receiver) = queue.initialize(0x400, name("queue\0"), memory, &created).unwrap();
    assert_eq!(receiver.receive(WaitOption::NoWait, &receive), Err(TxError::Unknown));
    let receive = |_request: QueueReceive| -> Result<u32, u32> { Err(0) };
    assert_eq!(receiver.receive(WaitOption::NoWait, &receive), Err(TxError::Unknown));
    let receive = |_request: QueueReceive| -> Result<u32, u32> { Err(0x01) };
    assert_eq!(receiver.receive(WaitOption::NoWait, &receive), Err(TxError::Deleted));
}

#[test]
fn and_clear_waiters_on_disjoint_flags_are_both_satisfied_by_one_set() {
    let kernel = Kernel::new();
    let entry = |call: KernelCall| kernel.serve(call);
    let mut group = EventFlagsGroup::new();
    assert_eq!(group.initialize(0x500, name("event_group\0"), &entry), Ok(()));
    let first_mask = 0b0011;
    let second_mask = 0b1100;

    // nothing is set yet: neither waiter is satisfied
    assert_eq!(
        group.get(first_mask, GetOption::WaitAllAndClear, WaitOption::NoWait, &entry),
        Err(TxError::NoEvents)
    );
    assert_eq!(
        group.get(second_mask, GetOption::WaitAllAndClear, WaitOption::NoWait, &entry),
        Err(TxError::NoEvents)
    );

    // one set covers both masks
    assert_eq!(group.publish(first_mask | second_mask, &entry), Ok(()));
    assert_eq!(
        group.get(first_mask, GetOption::WaitAllAndClear, WaitOption::NoWait, &entry),
        Ok(0b1111)
    );
    assert_eq!(kernel.groups.borrow()[&0x500], second_mask);
    assert_eq!(
        group.get(second_mask, GetOption::WaitAllAndClear, WaitOption::NoWait, &entry),
        Ok(0b1100)
    );
    assert_eq!(kernel.groups.borrow()[&0x500], 0);

    // the flags were consumed once each
    assert_eq!(
        group.get(first_mask, GetOption::WaitAllAndClear, WaitOption::NoWait, &entry),
        Err(TxError::NoEvents)
    );
    assert_eq!(
        group.get(second_mask, GetOption::WaitAllAndClear, WaitOption::NoWait, &entry),
        Err(TxError::NoEvents)
    );
}

#[test]
fn the_four_ways_to_wait_for_flags() {
    let kernel = Kernel::new();
    let entry = |call: KernelCall| kernel.serve(call);
    let mut group = EventFlagsGroup::new();
    assert_eq!(group.initialize(0x500, name("g\0"), &entry), Ok(()));
    assert_eq!(group.publish(0b0101, &entry), Ok(()));

    assert_eq!(group.get(0b0111, GetOption::WaitAll, WaitOption::NoWait, &entry), Err(TxError::NoEvents));
    assert_eq!(group.get(0b0101, GetOption::WaitAll, WaitOption::NoWait, &entry), Ok(0b0101));
    assert_eq!(kernel.groups.borrow()[&0x500], 0b0101);
    assert_eq!(group.get(0b0011, GetOption::WaitAny, WaitOption::NoWait, &entry), Ok(0b0101));
    assert_eq!(kernel.groups.borrow()[&0x500], 0b0101);
    assert_eq!(group.get(0b0011, GetOption::WaitAnyAndClear, WaitOption::NoWait, &entry), Ok(0b0101));
    assert_eq!(kernel.groups.borrow()[&0x500], 0b0100);
    assert_eq!(group.get(0b0100, GetOption::WaitAllAndClear, WaitOption::NoWait, &entry), Ok(0b0100));
    assert_eq!(kernel.groups.borrow()[&0x500], 0);
    assert_eq!(group.get(0b1111, GetOption::WaitAny, WaitOption::NoWait, &entry), Err(TxError::NoEvents));
}

#[test]
fn set_options_of_the_handle() {
    let kernel = Kernel::new();
    let entry = |call: KernelCall| kernel.serve(call);
    let mut group = EventFlagsGroup::new();
    assert_eq!(group.initialize(0x500, name("g\0"), &entry), Ok(()));
    let handle = EventFlagsGroupHandle::new(0x500);
    assert_eq!(handle.set(0b0111, SetOption::SetAny, &entry), Ok(()));
    assert_eq!(handle.set(0b0110, SetOption::SetAndClear, &entry), Ok(()));
    assert_eq!(kernel.groups.borrow()[&0x500], 0b0110);
    assert_eq!(handle.get(0b0110, GetOption::WaitAll, WaitOption::NoWait, &entry), Ok(0b0110));
    let other = handle.clone();
    assert_eq!(other.get(0b1000, GetOption::WaitAny, WaitOption::NoWait, &entry), Err(TxError::NoEvents));
    assert_eq!(handle.delete(&entry), Ok(()));
    assert_eq!(other.set(1, SetOption::SetAny, &entry), Err(TxError::GroupError));
}

#[test]
fn group_that_was_never_initialized_is_no_group() {
    let asked = Cell::new(0);
    let entry = |_call: KernelCall| {
        asked.set(asked.get() + 1);
        Kernel::status(0)
    };
    let group = EventFlagsGroup::new();
    assert_eq!(group.publish(1, &entry), Err(TxError::GroupError));
    assert_eq!(
        group.get(1, GetOption::WaitAny, WaitOption::NoWait, &entry),
        Err(TxError::GroupError)
    );
    assert_eq!(asked.get(), 0);
}

#[test]
fn byte_pool_exhaustion_leaves_the_pool_usable() {
    let kernel = Kernel::new();
    let entry = |call: KernelCall| kernel.serve(call);
    let mut pool = BytePool::new();
    let pool_memory = Region::new(0x2000_0000, 1024);
    let handle = pool.initialize(0x300, name("pool1\0"), &pool_memory, &entry).unwrap();

    let first = handle.allocate(256, false, &entry).unwrap().consume();
    assert_eq!(first, Region::new(0x2000_0000, 256));
    let second = handle.allocate(512, false, &entry).unwrap().consume();
    assert_eq!(second, Region::new(0x2000_0100, 512));

    // 256 bytes remain: more than that is refused
    match handle.allocate(257, false, &entry) {
        Err(error) => assert_eq!(error, TxError::NoMemoryOrStartError),
        Ok(_) => panic!("the pool has no 257 bytes left"),
    }
    match handle.allocate(4096, false, &entry) {
        Err(error) => assert_eq!(error, TxError::NoMemoryOrStartError),
        Ok(_) => panic!("the pool never had 4096 bytes"),
    }

    // what remains is still handed out, right behind the second block
    let third = handle.allocate(256, false, &entry).unwrap().consume();
    assert_eq!(third, Region::new(0x2000_0300, 256));
    match handle.allocate(1, false, &entry) {
        Err(error) => assert_eq!(error, TxError::NoMemoryOrStartError),
        Ok(_) => panic!("the pool is used up"),
    }
    assert_eq!(handle.release(first, &entry), Ok(()));
    assert_eq!(handle.delete(&entry), Ok(()));
}

#[test]
fn block_pool_hands_out_blocks_of_its_one_size() {
    let kernel = Kernel::new();
    let entry = |call: KernelCall| kernel.serve(call);
    let mut pool = BlockPool::new();
    let pool_memory = Region::new(0x2000_1000, 48);
    let mut handle = pool.initialize(0x600, name("block_pool\0"), 16, &pool_memory, &entry).unwrap();
    let first = handle.allocate(true, &entry).unwrap();
    assert_eq!(first, Region::new(0x2000_1000, 16));
    let second = handle.allocate(false, &entry).unwrap();
    assert_eq!(second, Region::new(0x2000_1010, 16));
    let third = handle.allocate(false, &entry).unwrap();
    assert_eq!(third.len, 16);
    assert_eq!(handle.allocate(false, &entry), Err(TxError::NoMemoryOrStartError));
    assert_eq!(handle.release(second, &entry), Ok(()));
    assert_eq!(handle.allocate(false, &entry), Ok(Region::new(0x2000_1010, 16)));
}

#[test]
fn allocator_allocates_from_its_own_pool() {
    let kernel = Kernel::new();
    // an allocation always waits; the stand-in serves it as if it did not have to
    let entry = |call: KernelCall| match call {
        KernelCall::ByteAllocate { pool, size, wait } => {
            assert_eq!(wait, 0xFFFF_FFFF);
            kernel.serve(KernelCall::ByteAllocate { pool, size, wait: 0 })
        }
        other => kernel.serve(other),
    };
    let mut allocator = ThreadXAllocator::new();
    assert_eq!(allocator.allocate(10, &entry), Err(TxError::PoolError));
    assert_eq!(allocator.initialize(0x700, &Region::new(0x2000_2000, 1024), &entry), Ok(()));
    assert!(allocator.is_initialized());
    assert_eq!(allocator.allocate(10, &entry), Ok(0x2000_2000));
    assert_eq!(allocator.allocate(100, &entry), Ok(0x2000_200A));
    assert_eq!(allocator.allocate(2000, &entry), Err(TxError::NoMemoryOrStartError));
    assert_eq!(allocator.dealloc(0x2000_2000, &entry), Ok(()));
}
