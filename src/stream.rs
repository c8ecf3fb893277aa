//! An input stream with a position that can be saved and restored.

use vstd::prelude::*;

verus! {

/// An opaque saved position of a [`Stream`].
#[derive(Clone, Copy)]
pub struct Checkpoint {
    pos: usize,
}

impl Checkpoint {
    /// The saved position.
    pub closed spec fn at(self) -> nat {
        self.pos as nat
    }
}

/// A sequence of input units and the position of the next unit to consume.
pub struct Stream<C> {
    input: Vec<C>,
    pos: usize,
}

impl<C: Copy> Stream<C> {
    /// The whole input.
    pub closed spec fn input(&self) -> Seq<C> {
        self.input@
    }

    /// The number of units consumed so far.
    pub closed spec fn pos(&self) -> nat {
        self.pos as nat
    }

    /// The position never passes the end of the input.
    pub open spec fn wf(&self) -> bool {
        self.pos() <= self.input().len() <= usize::MAX
    }

    /// The units not consumed yet.
    pub open spec fn rest(&self) -> Seq<C> {
        self.input().subrange(self.pos() as int, self.input().len() as int)
    }

    /// A stream at the start of `input`.
    pub fn new(input: Vec<C>) -> (s: Self)
        ensures
            s.wf(),
            s.input() == input@,
            s.pos() == 0,
    {
        let _n = input.len();
        Stream { input, pos: 0 }
    }

    /// Returns the number of units consumed so far.
    pub fn position(&self) -> (r: usize)
        ensures
            r == self.pos(),
    {
        self.pos
    }

    /// Returns the units not consumed yet.
    pub fn remaining(&self) -> (r: Vec<C>)
        requires
            self.wf(),
        ensures
            r@ == self.rest(),
    {
        let mut r: Vec<C> = Vec::new();
        let mut i: usize = self.pos;
        while i < self.input.len()
            invariant
                self.pos <= i <= self.input.len(),
                r@ == self.input@.subrange(self.pos as int, i as int),
            decreases self.input.len() - i,
        {
            r.push(self.input[i]);
            i = i + 1;
        }
        r
    }

    /// Saves the current position.
    pub fn save(&self) -> (r: Checkpoint)
        ensures
            r.at() == self.pos(),
    {
        Checkpoint { pos: self.pos }
    }

    /// Restores a saved position.
    pub fn revert(&mut self, cp: Checkpoint)
        requires
            old(self).wf(),
            cp.at() <= old(self).input().len(),
        ensures
            final(self).wf(),
            final(self).input() == old(self).input(),
            final(self).pos() == cp.at(),
    {
        self.pos = cp.pos;
    }

    /// Consumes the next unit, or returns `None` at the end of the input.
    pub fn next(&mut self) -> (r: Option<C>)
        requires
            old(self).wf(),
        ensures
            final(self).wf(),
            final(self).input() == old(self).input(),
            old(self).pos() < old(self).input().len() ==> r == Some(old(self).input()[old(
                self,
            ).pos() as int]) && final(self).pos() == old(self).pos() + 1,
            old(self).pos() == old(self).input().len() ==> r is None && final(self).pos() == old(
                self,
            ).pos(),
    {
        if self.pos < self.input.len() {
            let c = self.input[self.pos];
            self.pos = self.pos + 1;
            Some(c)
        } else {
            None
        }
    }
}

} // verus!
