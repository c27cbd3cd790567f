//! A minimal signed counter.

use vstd::prelude::*;

verus! {

#[derive(Clone, Copy, PartialEq, Eq, Structural, Debug)]
pub struct Counter {
    pub val: i8,
}

impl Default for Counter {
    fn default() -> (c: Self)
        ensures
            c.val == 0,
    {
        Counter { val: 0 }
    }
}

impl Counter {
    pub fn get_num(&self) -> (n: i8)
        ensures
            n == self.val,
    {
        self.val
    }

    pub fn increment(&mut self)
        requires
            old(self).val < i8::MAX,
        ensures
            final(self).val == old(self).val + 1,
    {
        self.val = self.val + 1;
    }

    pub fn decrement(&mut self)
        requires
            old(self).val > i8::MIN,
        ensures
            final(self).val == old(self).val - 1,
    {
        self.val = self.val - 1;
    }

    pub fn reset(&mut self)
        ensures
            final(self).val == 0,
    {
        self.val = 0;
    }
}

} // verus!
