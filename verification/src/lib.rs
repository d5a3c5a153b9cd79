//! A safety layer between application code and a preemptive, priority-based real-time
//! kernel.
//!
//! The kernel itself is reached through one function, the *kernel entry*, which takes a
//! [`kernel::KernelCall`] and hands back a [`kernel::KernelReply`]. Everything in this
//! crate decides which service to ask for, with which arguments, and what the reply means
//! to the caller. The resources (pools, locks, signals, flag groups, queues, timers,
//! threads) are initialized once, in place, and are used through handles.

use vstd::prelude::*;
use crate::kernel::TX_TIMER_TICKS_PER_SECOND;
use crate::pool::Region;

pub mod allocator;
pub mod error;
pub mod event_flags;
pub mod kernel;
pub mod mutex;
pub mod name;
pub mod pool;
pub mod queue;
pub mod resource;
pub mod semaphore;
pub mod thread;
pub mod time;
pub mod timer;
pub mod trampoline;

verus! {

/// How long a blocking service may suspend the calling thread.
#[derive(Clone, Copy, Debug, PartialEq, Eq, Structural)]
pub enum WaitOption {
    /// Suspend until the service can be completed.
    WaitForever,
    /// Come back at once, with an error if the service cannot be completed now.
    NoWait,
}

impl WaitOption {
    /// The wait word that the kernel knows this policy by.
    pub open spec fn word(self) -> u32 {
        match self {
            WaitOption::WaitForever => kernel::TX_WAIT_FOREVER,
            WaitOption::NoWait => kernel::TX_NO_WAIT,
        }
    }

    /// The wait word that the kernel knows this policy by.
    pub fn code(self) -> (word: u32)
        ensures
            word == self.word(),
    {
        match self {
            WaitOption::WaitForever => kernel::TX_WAIT_FOREVER,
            WaitOption::NoWait => kernel::TX_NO_WAIT,
        }
    }
}

/// Where the boot protocol stands.
#[derive(Clone, Copy, Debug, PartialEq, Eq, Structural)]
pub enum BootPhase {
    /// The two callbacks are stored; the kernel has not called back yet.
    Configured,
    /// The low-level initialization has handed over the heap; the application is not
    /// defined yet.
    Initializing,
    /// The application is defined, and the kernel runs its scheduler. Nothing follows.
    Running,
}

/// The two callbacks that boot the system. The first prepares the hardware for the given
/// number of ticks per second and hands back the memory that the application may use.
/// The second is given that memory and defines the application: its pools, its threads
/// and what they share. Neither is meant to capture anything: what they share lives in
/// static storage.
pub struct Builder<L, A> {
    low_level_init_cb: L,
    app_define_cb: A,
}

/// The boot state that the kernel's two hooks work on, once the builder has been spent.
pub struct Boot<L, A> {
    low_level_init_cb: L,
    app_define_cb: A,
    heap: Option<Region>,
    defined: bool,
}

impl<L: Fn(u32) -> Region, A: Fn(Region)> Builder<L, A> {
    /// The low-level initialization callback.
    pub closed spec fn low_level_init(&self) -> L {
        self.low_level_init_cb
    }

    /// The application definition callback.
    pub closed spec fn app_define(&self) -> A {
        self.app_define_cb
    }

    /// Stores the two callbacks.
    pub fn new(low_level_init_cb: L, app_define_cb: A) -> (builder: Builder<L, A>)
        ensures
            builder.low_level_init() == low_level_init_cb,
            builder.app_define() == app_define_cb,
    {
        Builder { low_level_init_cb, app_define_cb }
    }

    /// Spends the builder on the configured boot state. The caller puts it where the
    /// kernel's hooks find it and enters the kernel, which calls the two hooks in turn
    /// and then runs its scheduler: the caller's own code does not go on after that.
    pub fn initialize(self) -> (boot: Boot<L, A>)
        ensures
            boot.phase() == BootPhase::Configured,
            boot.heap() is None,
            boot.low_level_init() == self.low_level_init(),
            boot.app_define() == self.app_define(),
    {
        Boot {
            low_level_init_cb: self.low_level_init_cb,
            app_define_cb: self.app_define_cb,
            heap: None,
            defined: false,
        }
    }
}

impl<L: Fn(u32) -> Region, A: Fn(Region)> Boot<L, A> {
    /// The low-level initialization callback.
    pub closed spec fn low_level_init(&self) -> L {
        self.low_level_init_cb
    }

    /// The application definition callback.
    pub closed spec fn app_define(&self) -> A {
        self.app_define_cb
    }

    /// The heap that waits to be given to the application.
    pub closed spec fn heap(&self) -> Option<Region> {
        self.heap
    }

    /// Where the boot protocol stands.
    pub closed spec fn phase(&self) -> BootPhase {
        if self.defined {
            BootPhase::Running
        } else if self.heap is Some {
            BootPhase::Initializing
        } else {
            BootPhase::Configured
        }
    }

    /// Where the boot protocol stands.
    pub fn current_phase(&self) -> (phase: BootPhase)
        ensures
            phase == self.phase(),
    {
        if self.defined {
            BootPhase::Running
        } else if self.heap.is_some() {
            BootPhase::Initializing
        } else {
            BootPhase::Configured
        }
    }

    /// The kernel's hook for low-level initialization: calls the first callback with the
    /// ticks per second that the kernel counts on, keeps the heap that it hands back, and
    /// tells where the heap starts, which is where the kernel's unused memory starts.
    /// The hook is for the configured state only.
    pub fn on_low_level_init(&mut self) -> (heap_start: usize)
        requires
            old(self).phase() == BootPhase::Configured,
            old(self).low_level_init().requires((TX_TIMER_TICKS_PER_SECOND,)),
        ensures
            final(self).phase() == BootPhase::Initializing,
            final(self).low_level_init() == old(self).low_level_init(),
            final(self).app_define() == old(self).app_define(),
            final(self).heap() matches Some(heap) && heap.start == heap_start
                && old(self).low_level_init().ensures((TX_TIMER_TICKS_PER_SECOND,), heap),
    {
        let heap = (self.low_level_init_cb)(TX_TIMER_TICKS_PER_SECOND);
        let heap_start: usize = heap.start;
        self.heap = Some(heap);
        heap_start
    }

    /// The kernel's hook for the definition of the application: gives the second callback
    /// the heap, untouched, that the first one handed over. The hook is for the
    /// initializing state only; the state after it is the last.
    pub fn on_application_define(&mut self)
        requires
            old(self).phase() == BootPhase::Initializing,
            old(self).heap() matches Some(heap) && old(self).app_define().requires((heap,)),
        ensures
            final(self).phase() == BootPhase::Running,
            final(self).low_level_init() == old(self).low_level_init(),
            final(self).app_define() == old(self).app_define(),
            final(self).heap() is None,
            old(self).heap() matches Some(heap) && old(self).app_define().ensures((heap,), ()),
    {
        match self.heap.take() {
            Some(heap) => {
                (self.app_define_cb)(heap);
                self.defined = true;
            },
            None => {},
        }
    }
}

} // verus!
