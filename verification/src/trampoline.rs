//! The trampoline bridge: how a closure becomes a callback that the kernel can take.
//!
//! The kernel registers a plain function together with one word, the *input*, which it
//! hands to the function unchanged on every call. For a closure, the function is a
//! trampoline made for the closure's type, and the input carries the closure's address:
//! all the trampoline does is take the input for that address again and call the closure
//! there. The closure must outlive every call that the kernel will ever make. Nothing in
//! this layer can enforce that: it is the caller's obligation.

use vstd::prelude::*;
use crate::kernel::TX_WORD_MAX;

verus! {

/// A closure that is ready to be registered with the kernel: the address of the trampoline
/// for its type, and the address of the closure itself.
#[derive(Debug)]
pub struct Trampoline {
    function: usize,
    closure: usize,
}

impl Trampoline {
    #[verifier::type_invariant]
    spec fn usable(self) -> bool {
        self.wf()
    }

    /// There is a function to call, and the closure's address fits the input word.
    pub closed spec fn wf(&self) -> bool {
        self.function != 0 && self.closure <= TX_WORD_MAX
    }

    /// The address of the trampoline function.
    pub closed spec fn function(&self) -> usize {
        self.function
    }

    /// The address of the closure.
    pub closed spec fn closure(&self) -> usize {
        self.closure
    }

    /// The input word that carries the closure's address.
    pub open spec fn input_word(&self) -> u32 {
        self.closure() as u32
    }

    /// The address that a trampoline takes an input word for.
    pub open spec fn closure_of(input: u32) -> usize {
        input as usize
    }

    /// Bridges the closure at `closure` with the trampoline function at `function`.
    /// There is no bridge without a function, nor for a closure whose address does not
    /// fit the input word.
    pub fn new(function: usize, closure: usize) -> (bridge: Option<Trampoline>)
        ensures
            match bridge {
                Some(t) => t.wf() && t.function() == function && t.closure() == closure,
                None => function == 0 || closure > TX_WORD_MAX,
            },
            bridge is Some <==> function != 0 && closure <= TX_WORD_MAX,
    {
        if function != 0 && closure <= TX_WORD_MAX {
            Some(Trampoline { function, closure })
        } else {
            None
        }
    }

    /// The address of the function to register with the kernel.
    pub fn entry(&self) -> (function: usize)
        ensures
            function == self.function(),
            function != 0,
    {
        proof {
            use_type_invariant(self);
        }
        self.function
    }

    /// The input word to register with the kernel, which carries the closure's address.
    pub fn input(&self) -> (word: u32)
        ensures
            word == self.input_word(),
            Self::closure_of(word) == self.closure(),
    {
        proof {
            use_type_invariant(self);
        }
        self.closure as u32
    }

    /// What the trampoline does with the input that the kernel hands it: takes it for the
    /// address of the closure to call.
    pub fn recover(input: u32) -> (closure: usize)
        ensures
            closure == Self::closure_of(input),
    {
        input as usize
    }
}

/// The kernel hands the input back unchanged, so the trampoline finds the very closure
/// that was bridged.
pub proof fn lemma_bridge_round_trip(bridge: Trampoline)
    requires
        bridge.wf(),
    ensures
        Trampoline::closure_of(bridge.input_word()) == bridge.closure(),
{
}

} // verus!
