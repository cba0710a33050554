//! A push target that takes one value at a time.

use std::collections::VecDeque;
use vstd::prelude::*;

verus! {

/// Something that values can be sent to, one at a time.
pub trait Pipe<T> {
    /// Everything that was sent so far, oldest first.
    spec fn sent(&self) -> Seq<T>;

    /// Sends one value: it comes behind all that were sent before.
    fn send(&mut self, x: T)
        ensures
            final(self).sent() == old(self).sent().push(x),
    ;
}

impl<T> Pipe<T> for VecDeque<T> {
    open spec fn sent(&self) -> Seq<T> {
        self@
    }

    fn send(&mut self, x: T) {
        self.push_back(x);
    }
}

} // verus!
