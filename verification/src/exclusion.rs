//! The lock that lets one dump through at a time.

use vstd::prelude::*;

verus! {

/// A binary resource, held or free. Taking it never waits: an attempt
/// either succeeds at once or is refused at once.
#[derive(Debug)]
pub struct ExclusionGate {
    held: bool,
}

impl ExclusionGate {
    /// Whether the lock is held.
    pub closed spec fn is_held(&self) -> bool {
        self.held
    }

    /// A free lock.
    pub fn new() -> (res: Self)
        ensures
            !res.is_held(),
    {
        ExclusionGate { held: false }
    }

    /// Whether the lock is held.
    pub fn held(&self) -> (res: bool)
        ensures
            res == self.is_held(),
    {
        self.held
    }

    /// Takes the lock if it is free. Returns whether this attempt took it;
    /// the lock is held afterwards either way.
    pub fn try_lock(&mut self) -> (acquired: bool)
        ensures
            acquired == !old(self).is_held(),
            final(self).is_held(),
    {
        let acquired = !self.held;
        self.held = true;
        acquired
    }

    /// Frees the lock.
    pub fn release(&mut self)
        ensures
            !final(self).is_held(),
    {
        self.held = false;
    }
}

} // verus!
