//! A frame-local counter that hands out distinct identifiers, reset once per
//! tick by the owner.
use crate::text::{i64_to_string, int_chars};
use vstd::prelude::*;

verus! {

pub struct Inc {
    counter: i64,
}

impl Inc {
    pub closed spec fn spec_counter(self) -> int {
        self.counter as int
    }

    pub fn new() -> (r: Inc)
        ensures
            r.spec_counter() == 0,
    {
        Inc { counter: 0 }
    }

    /// The next identifier.
    pub fn up(&mut self) -> (r: i64)
        requires
            old(self).spec_counter() < i64::MAX,
        ensures
            final(self).spec_counter() == old(self).spec_counter() + 1,
            r == final(self).spec_counter(),
    {
        self.counter = self.counter + 1;
        self.counter
    }

    /// The next identifier, rendered in decimal.
    pub fn up_str(&mut self) -> (r: String)
        requires
            old(self).spec_counter() < i64::MAX,
        ensures
            final(self).spec_counter() == old(self).spec_counter() + 1,
            r@ == int_chars(final(self).spec_counter()),
    {
        self.counter = self.counter + 1;
        i64_to_string(self.counter)
    }

    pub fn reset(&mut self) -> (r: i64)
        ensures
            final(self).spec_counter() == 0,
            r == 0,
    {
        self.counter = 0;
        self.counter
    }
}

} // verus!
