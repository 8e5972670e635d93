//! Odd numbers.

use vstd::prelude::*;

verus! {

/// An odd number. A length that is odd has a middle.
#[derive(Debug, Clone, Copy, PartialEq, Eq, Structural)]
pub struct Odd {
    value: usize,
}

impl Odd {
    #[verifier::type_invariant]
    spec fn is_odd(self) -> bool {
        self.value % 2 == 1
    }

    /// The number itself.
    pub closed spec fn view(&self) -> nat {
        self.value as nat
    }

    /// `value` as an odd number, or `None` where it is even.
    pub fn new(value: usize) -> (odd: Option<Self>)
        ensures
            odd is Some <==> value % 2 == 1,
            odd matches Some(o) ==> o@ == value,
    {
        if value % 2 == 1 {
            Some(Self { value })
        } else {
            None
        }
    }

    pub fn value(&self) -> (value: usize)
        ensures
            value == self@,
            value % 2 == 1,
    {
        proof {
            use_type_invariant(self);
        }
        self.value
    }
}

} // verus!
