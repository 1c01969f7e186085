//! A progress wrapper that may know how many steps lie ahead. Only an iterator
//! of known length can be given a bound, and a bounded bar renders its empty
//! remainder too.

use vstd::prelude::*;
use vstd::std_specs::iter::IteratorSpec;
use crate::bar::{bounded_line, bounded_line_text, stars, unbounded_line};

verus! {

/// Relies on `ExactSizeIterator::len` for the length the iterator reports.
/// The trait is safe to implement, so nothing is promised of that number: it
/// need not match what `next` goes on to yield. The default `len` panics where
/// `size_hint` gives no exact range, which only a broken implementation does.
#[verifier::external_body]
pub(crate) fn remaining_len<I: ExactSizeIterator>(it: &I) -> (r: usize) {
    it.len()
}

/// An iterator, the number of steps taken over it, and the number of steps
/// in all where that is known.
pub struct ProgressTwo<Iter> {
    iter: Iter,
    i: usize,
    bound: Option<usize>,
}

/// The bar of a wrapper that has taken `filled` steps: bracketed with blanks
/// for the steps to come where the total is known, bare stars where not.
pub open spec fn two_line(filled: nat, bound: Option<usize>) -> Seq<char> {
    match bound {
        Some(total) => bounded_line('[', ']', filled, total as nat),
        None => stars(filled),
    }
}

impl<Iter> ProgressTwo<Iter> {
    /// The wrapped iterator.
    pub closed spec fn inner(&self) -> Iter {
        self.iter
    }

    /// The number of steps taken.
    pub closed spec fn steps(&self) -> nat {
        self.i as nat
    }

    /// The number of steps in all, where known.
    pub closed spec fn limit(&self) -> Option<usize> {
        self.bound
    }

    /// Whether the bar can still be drawn: a bounded bar has not run past
    /// its end.
    pub open spec fn in_range(&self) -> bool {
        match self.limit() {
            Some(total) => self.steps() <= total,
            None => true,
        }
    }

    /// Wraps `iter` with no bound; no step has been taken yet.
    pub fn new(iter: Iter) -> (r: Self)
        ensures
            r.inner() == iter,
            r.steps() == 0,
            r.limit() is None,
    {
        ProgressTwo { iter, i: 0, bound: None }
    }

    /// The number of steps taken.
    pub fn count(&self) -> (r: usize)
        ensures
            r == self.steps(),
    {
        self.i
    }

    /// The number of steps in all, where known.
    pub fn bound(&self) -> (r: Option<usize>)
        ensures
            r == self.limit(),
    {
        self.bound
    }

    /// Bounds the bar at `total` steps in all.
    pub fn bounded_by(self, total: usize) -> (r: Self)
        ensures
            r.inner() == self.inner(),
            r.steps() == self.steps(),
            r.limit() == Some(total),
    {
        let mut s = self;
        s.bound = Some(total);
        s
    }

    /// The bar for the current step.
    pub fn line(&self) -> (r: String)
        requires
            self.in_range(),
        ensures
            r@ == two_line(self.steps(), self.limit()),
    {
        match self.bound {
            Some(total) => bounded_line_text('[', ']', self.i, total),
            None => unbounded_line(self.i),
        }
    }
}

impl<Iter: ExactSizeIterator> ProgressTwo<Iter> {
    /// Bounds the bar by the length the iterator reports.
    pub fn with_bound(self) -> (r: Self)
        ensures
            r.inner() == self.inner(),
            r.steps() == self.steps(),
            r.limit() is Some,
    {
        let total = remaining_len(&self.iter);
        self.bounded_by(total)
    }
}

impl<Iter: Iterator> ProgressTwo<Iter> {
    /// Takes one step: counts it and hands out what the inner iterator yields.
    pub fn next(&mut self) -> (r: Option<Iter::Item>)
        requires
            old(self).steps() < usize::MAX,
        ensures
            final(self).steps() == old(self).steps() + 1,
            final(self).limit() == old(self).limit(),
            final(self).inner().obeys_prophetic_iter_laws() == old(self).inner().obeys_prophetic_iter_laws(),
            final(self).inner().obeys_prophetic_iter_laws() ==> {
                if old(self).inner().remaining().len() > 0 {
                    &&& final(self).inner().remaining() == old(self).inner().remaining().drop_first()
                    &&& r == Some(old(self).inner().remaining()[0])
                } else {
                    &&& final(self).inner().remaining() == old(self).inner().remaining()
                    &&& r is None
                }
            },
    {
        self.i = self.i + 1;
        self.iter.next()
    }
}

/// Attaches a step counter, with no bound yet, to any iterator.
pub trait ProgressTwoIteratorExt: Sized {
    fn progress_two(self) -> (r: ProgressTwo<Self>)
        ensures
            r.inner() == self,
            r.steps() == 0,
            r.limit() is None;
}

impl<Iter: Iterator> ProgressTwoIteratorExt for Iter {
    fn progress_two(self) -> (r: ProgressTwo<Self>) {
        ProgressTwo::new(self)
    }
}

} // verus!
