//! The priority of a substituter, as Nix's cache info states it: the higher
//! the value, the less the substituter is preferred.
use vstd::prelude::*;

verus! {

#[derive(Debug, Clone, Copy, PartialEq, Eq, PartialOrd, Ord, Hash)]
pub struct Priority(u32);

impl Priority {
    pub closed spec fn value_spec(self) -> u32 {
        self.0
    }

    /// The priority `value`; every value is accepted.
    pub fn new(value: u32) -> (r: Priority)
        ensures
            r.value_spec() == value,
    {
        Priority(value)
    }

    pub fn value(&self) -> (r: u32)
        ensures
            r == self.value_spec(),
    {
        self.0
    }
}

} // verus!
