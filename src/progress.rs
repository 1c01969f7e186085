//! The simplest progress wrapper: it counts the steps taken over any iterator
//! and renders a bar with no known end.

use vstd::prelude::*;
use vstd::std_specs::iter::IteratorSpec;
use crate::bar::{stars, unbounded_line};

verus! {

/// An iterator paired with the number of steps taken over it so far.
pub struct Progress<Iter> {
    iter: Iter,
    i: usize,
}

impl<Iter> Progress<Iter> {
    /// The wrapped iterator.
    pub closed spec fn inner(&self) -> Iter {
        self.iter
    }

    /// The number of steps taken.
    pub closed spec fn steps(&self) -> nat {
        self.i as nat
    }

    /// Wraps `iter`; no step has been taken yet.
    pub fn new(iter: Iter) -> (r: Self)
        ensures
            r.inner() == iter,
            r.steps() == 0,
    {
        Progress { iter, i: 0 }
    }

    /// The number of steps taken.
    pub fn count(&self) -> (r: usize)
        ensures
            r == self.steps(),
    {
        self.i
    }

    /// The bar for the current step: one star per step already taken.
    pub fn line(&self) -> (r: String)
        ensures
            r@ == stars(self.steps()),
    {
        unbounded_line(self.i)
    }
}

impl<Iter: Iterator> Progress<Iter> {
    /// Takes one step: counts it and hands out what the inner iterator yields.
    pub fn next(&mut self) -> (r: Option<Iter::Item>)
        requires
            old(self).steps() < usize::MAX,
        ensures
            final(self).steps() == old(self).steps() + 1,
            final(self).inner().obeys_prophetic_iter_laws() == old(self).inner().obeys_prophetic_iter_laws(),
            final(self).inner().obeys_prophetic_iter_laws() ==> {
                if old(self).inner().remaining().len() > 0 {
                    &&& final(self).inner().remaining() == old(self).inner().remaining().drop_first()
                    &&& r == Some(old(self).inner().remaining()[0])
                } else {
                    &&& final(self).inner().remaining() == old(self).inner().remaining()
                    &&& r is None
                }
            },
    {
        self.i = self.i + 1;
        self.iter.next()
    }
}

/// Attaches a step counter to any iterator.
pub trait ProgressIteratorExt: Sized {
    fn progress(self) -> (r: Progress<Self>)
        ensures
            r.inner() == self,
            r.steps() == 0;
}

impl<Iter: Iterator> ProgressIteratorExt for Iter {
    fn progress(self) -> (r: Progress<Self>) {
        Progress::new(self)
    }
}

} // verus!
