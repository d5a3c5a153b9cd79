//! The names of resources. The kernel takes a name as text that ends in a NUL, and keeps
//! it for as long as the resource lives: a name is for diagnostics, never for lookup.

use vstd::prelude::*;
use vstd::string::StrSliceExecFns;

verus! {

/// Whether `text` is a name as the kernel takes it: it ends in a NUL and has none before.
pub open spec fn is_name(text: Seq<char>) -> bool {
    &&& text.len() > 0
    &&& text.last() == '\0'
    &&& forall|i: int| 0 <= i < text.len() - 1 ==> text[i] != '\0'
}

/// The name of a resource: static text that ends in a NUL and has none before.
#[derive(Clone, Copy, Debug, PartialEq, Eq)]
pub struct TxStr {
    text: &'static str,
}

impl View for TxStr {
    type V = Seq<char>;

    closed spec fn view(&self) -> Seq<char> {
        self.text@
    }
}

impl TxStr {
    #[verifier::type_invariant]
    spec fn terminated(self) -> bool {
        is_name(self.text@)
    }

    /// The name with the text `text`.
    pub closed spec fn of(text: &'static str) -> TxStr {
        TxStr { text }
    }

    /// Takes `text` for a name. Text that does not end in a NUL, or that has one before
    /// its end, is no name.
    pub fn new(text: &'static str) -> (name: Option<TxStr>)
        ensures
            name == if is_name(text@) {
                Some(TxStr::of(text))
            } else {
                None
            },
    {
        let len: usize = text.unicode_len();
        if len == 0 {
            return None;
        }
        let mut i: usize = 0;
        while i < len - 1
            invariant
                len == text@.len(),
                len > 0,
                i <= len - 1,
                forall|j: int| 0 <= j < i ==> text@[j] != '\0',
            decreases len - i,
        {
            if text.get_char(i) == '\0' {
                return None;
            }
            i += 1;
        }
        if text.get_char(len - 1) == '\0' {
            Some(TxStr { text })
        } else {
            None
        }
    }

    /// The text of the name, with the NUL at its end.
    pub fn as_str(&self) -> (text: &'static str)
        ensures
            *self == TxStr::of(text),
            text@ == self@,
            is_name(text@),
    {
        proof {
            use_type_invariant(self);
        }
        self.text
    }
}

} // verus!
