//! The timer: a callback that the kernel calls after a first delay and then, if asked,
//! period after period.

use vstd::prelude::*;
use vstd::arithmetic::div_mod::{lemma_fundamental_div_mod, lemma_fundamental_div_mod_converse};
use core::time::Duration;
use crate::error::TxResult;
use crate::kernel::{accepts, call_checked, KernelCall, KernelReply};
use crate::resource::{ControlBlock, Lifecycle};
use crate::time::{duration_ticks, ticks_of};
use crate::trampoline::Trampoline;
use crate::name::TxStr;

verus! {

/// The word for "arm the timer as soon as it is created".
pub open spec fn activate_word(auto_activate: bool) -> u32 {
    if auto_activate {
        1
    } else {
        0
    }
}

/// A timer that the kernel has not been given yet.
pub struct Timer(ControlBlock);

impl Timer {
    /// The resource object of the timer.
    pub closed spec fn control(&self) -> ControlBlock {
        self.0
    }

    /// The creating service for a timer at `storage`. The two durations are handed over
    /// in ticks, each rounded up to whole ticks.
    pub open spec fn create_call(
        storage: usize,
        name: TxStr,
        expiration_function: &Trampoline,
        expiration_input: u32,
        initial_ticks: Duration,
        reschedule_ticks: Duration,
        auto_activate: bool,
    ) -> KernelCall {
        KernelCall::TimerCreate {
            timer: storage,
            name,
            expiration: expiration_function.function(),
            input: expiration_input,
            initial_ticks: ticks_of(initial_ticks),
            reschedule_ticks: ticks_of(reschedule_ticks),
            auto_activate: activate_word(auto_activate),
        }
    }

    /// A timer that is not initialized.
    pub fn new() -> (timer: Timer)
        ensures
            timer.control().lifecycle() == Lifecycle::Uninitialized,
    {
        Timer(ControlBlock::new())
    }

    /// Whether the timer has been initialized.
    pub fn is_initialized(&self) -> (done: bool)
        ensures
            done == (self.control().lifecycle() != Lifecycle::Uninitialized),
    {
        !self.0.is_uninitialized()
    }

    /// Creates the timer, whose control block lies at `storage`. It expires for the first
    /// time after `initial_ticks` and then every `reschedule_ticks`; each expiration
    /// calls the bridged callback `expiration_function` with `expiration_input`. The
    /// callback runs in the kernel's own context and must not block. A timer is
    /// initialized once: the call is not for a timer that is initialized already.
    pub fn initialize<K: Fn(KernelCall) -> KernelReply>(
        &mut self,
        storage: usize,
        name: TxStr,
        expiration_function: &Trampoline,
        expiration_input: u32,
        initial_ticks: Duration,
        reschedule_ticks: Duration,
        auto_activate: bool,
        kernel: &K,
    ) -> (r: TxResult)
        requires
            old(self).control().lifecycle() == Lifecycle::Uninitialized,
            storage != 0,
            accepts(
                kernel,
                Self::create_call(
                    storage,
                    name,
                    expiration_function,
                    expiration_input,
                    initial_ticks,
                    reschedule_ticks,
                    auto_activate,
                ),
            ),
        ensures
            old(self).control().step(final(self).control()),
            call_checked(
                kernel,
                Self::create_call(
                    storage,
                    name,
                    expiration_function,
                    expiration_input,
                    initial_ticks,
                    reschedule_ticks,
                    auto_activate,
                ),
                r,
            ),
            r is Ok ==> final(self).control().lifecycle() == Lifecycle::Live
                && final(self).control().address() == storage,
            r is Err ==> final(self).control() == old(self).control(),
    {
        let call = KernelCall::TimerCreate {
            timer: storage,
            name,
            expiration: expiration_function.entry(),
            input: expiration_input,
            initial_ticks: duration_ticks(initial_ticks),
            reschedule_ticks: duration_ticks(reschedule_ticks),
            auto_activate: if auto_activate {
                1
            } else {
                0
            },
        };
        self.0.create(storage, call, kernel)
    }
}

/// Whether an armed timer with a first delay of `initial` ticks and a period of
/// `reschedule` ticks expires on tick `tick`, counted from the tick on which it was
/// armed. With a period of zero the timer expires once.
pub open spec fn expires_at(initial: nat, reschedule: nat, tick: nat) -> bool {
    if reschedule == 0 {
        tick == initial
    } else {
        tick >= initial && (tick - initial) % (reschedule as int) == 0
    }
}

/// How often such a timer has expired when `elapsed` ticks have gone by: the number of
/// ticks up to `elapsed` on which it expires.
pub open spec fn expirations(initial: nat, reschedule: nat, elapsed: nat) -> nat
    decreases elapsed,
{
    let now: nat = if expires_at(initial, reschedule, elapsed) {
        1
    } else {
        0
    };
    if elapsed == 0 {
        now
    } else {
        now + expirations(initial, reschedule, (elapsed - 1) as nat)
    }
}

proof fn lemma_division_step(x: int, p: int)
    requires
        x >= 1,
        p >= 1,
    ensures
        x / p == (x - 1) / p + if x % p == 0 {
            1int
        } else {
            0int
        },
{
    lemma_fundamental_div_mod(x, p);
    let q = x / p;
    let r = x % p;
    assert(0 <= r < p);
    assert(x == p * q + r);
    assert(p * q == q * p) by (nonlinear_arith);
    if r == 0 {
        assert(x - 1 == (q - 1) * p + (p - 1)) by (nonlinear_arith)
            requires
                x == q * p,
        ;
        lemma_fundamental_div_mod_converse(x - 1, p, q - 1, p - 1);
    } else {
        lemma_fundamental_div_mod_converse(x - 1, p, q, r - 1);
    }
}

/// A periodic timer expires for the first time when its first delay has gone by, and
/// once more for every whole period since: within `elapsed` ticks not at all if the
/// first delay is longer, and else once and once again for each whole period that fits
/// the rest.
pub proof fn lemma_timer_periodicity(initial: nat, reschedule: nat, elapsed: nat)
    requires
        reschedule > 0,
    ensures
        expirations(initial, reschedule, elapsed) == if elapsed < initial {
            0
        } else {
            1 + (elapsed - initial) / (reschedule as int)
        },
    decreases elapsed,
{
    lemma_fundamental_div_mod_converse(0, reschedule as int, 0, 0);
    if elapsed > 0 {
        lemma_timer_periodicity(initial, reschedule, (elapsed - 1) as nat);
        if elapsed > initial {
            lemma_division_step(elapsed - initial, reschedule as int);
        }
    }
}

/// A timer without a period expires once, when its first delay has gone by.
pub proof fn lemma_timer_one_shot(initial: nat, elapsed: nat)
    ensures
        expirations(initial, 0, elapsed) == if elapsed < initial {
            0nat
        } else {
            1nat
        },
    decreases elapsed,
{
    if elapsed > 0 {
        lemma_timer_one_shot(initial, (elapsed - 1) as nat);
    }
}

/// Counts the expirations, within `elapsed_ticks` ticks of its arming, of a timer with a
/// first delay of `initial_ticks` and a period of `reschedule_ticks`.
pub fn expirations_within(
    initial_ticks: u32,
    reschedule_ticks: u32,
    elapsed_ticks: u32,
) -> (count: u64)
    ensures
        count == expirations(initial_ticks as nat, reschedule_ticks as nat, elapsed_ticks as nat),
{
    proof {
        if reschedule_ticks == 0 {
            lemma_timer_one_shot(initial_ticks as nat, elapsed_ticks as nat);
        } else {
            lemma_timer_periodicity(
                initial_ticks as nat,
                reschedule_ticks as nat,
                elapsed_ticks as nat,
            );
        }
    }
    if elapsed_ticks < initial_ticks {
        0
    } else if reschedule_ticks == 0 {
        1
    } else {
        let periods: u32 = (elapsed_ticks - initial_ticks) / reschedule_ticks;
        1 + periods as u64
    }
}

} // verus!
