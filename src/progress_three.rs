//! A progress wrapper whose type records whether it is bounded. Only an
//! iterator of known length can become bounded, and only a bounded bar can
//! have its delimiters changed.

use vstd::prelude::*;
use vstd::std_specs::iter::IteratorSpec;
use crate::bar::{bounded_line, bounded_line_text, stars, unbounded_line};
use crate::progress_two::remaining_len;

verus! {

/// The state of a bar with no known end.
pub struct Unbounded;

/// The state of a bar with a known number of steps, drawn between a pair of
/// delimiters.
pub struct Bounded {
    bound: usize,
    delims: (char, char),
}

impl Bounded {
    /// The number of steps in all.
    pub closed spec fn total(&self) -> nat {
        self.bound as nat
    }

    /// The characters that open and close the bar.
    pub closed spec fn marks(&self) -> (char, char) {
        self.delims
    }

    /// The number of steps in all.
    pub fn bound(&self) -> (r: usize)
        ensures
            r == self.total(),
    {
        self.bound
    }

    /// The characters that open and close the bar.
    pub fn delims(&self) -> (r: (char, char))
        ensures
            r == self.marks(),
    {
        self.delims
    }
}

/// How a bar in a given state is drawn.
pub trait ProgressDisplay: Sized {
    /// Whether a bar in this state can be drawn after `filled` steps.
    spec fn can_show(&self, filled: nat) -> bool;

    /// The text of a bar in this state after `filled` steps.
    spec fn shown(&self, filled: nat) -> Seq<char>;

    /// Draws `progress`, whose state is `self`.
    fn display<Iter>(&self, progress: &ProgressThree<Iter, Self>) -> (r: String)
        requires
            self.can_show(progress.steps()),
        ensures
            r@ == self.shown(progress.steps());
}

impl ProgressDisplay for Unbounded {
    open spec fn can_show(&self, filled: nat) -> bool {
        true
    }

    open spec fn shown(&self, filled: nat) -> Seq<char> {
        stars(filled)
    }

    fn display<Iter>(&self, progress: &ProgressThree<Iter, Self>) -> (r: String) {
        unbounded_line(progress.count())
    }
}

impl ProgressDisplay for Bounded {
    open spec fn can_show(&self, filled: nat) -> bool {
        filled <= self.total()
    }

    open spec fn shown(&self, filled: nat) -> Seq<char> {
        bounded_line(self.marks().0, self.marks().1, filled, self.total())
    }

    fn display<Iter>(&self, progress: &ProgressThree<Iter, Self>) -> (r: String) {
        bounded_line_text(self.delims.0, self.delims.1, progress.count(), self.bound)
    }
}

/// An iterator, the number of steps taken over it, and the state of its bar.
pub struct ProgressThree<Iter, Bound> {
    iter: Iter,
    i: usize,
    bound: Bound,
    delims: (char, char),
}

impl<Iter, Bound> ProgressThree<Iter, Bound> {
    /// The wrapped iterator.
    pub closed spec fn inner(&self) -> Iter {
        self.iter
    }

    /// The number of steps taken.
    pub closed spec fn steps(&self) -> nat {
        self.i as nat
    }

    /// The state of the bar.
    pub closed spec fn state(&self) -> Bound {
        self.bound
    }

    /// The delimiters the wrapper was made with; a bounded state carries
    /// those it is drawn with.
    pub closed spec fn initial_marks(&self) -> (char, char) {
        self.delims
    }

    /// The number of steps taken.
    pub fn count(&self) -> (r: usize)
        ensures
            r == self.steps(),
    {
        self.i
    }

    /// The state of the bar.
    pub fn state_ref(&self) -> (r: &Bound)
        ensures
            *r == self.state(),
    {
        &self.bound
    }
}

impl<Iter> ProgressThree<Iter, Unbounded> {
    /// Wraps `iter` with no bound; no step has been taken yet.
    pub fn new(iter: Iter) -> (r: Self)
        ensures
            r.inner() == iter,
            r.steps() == 0,
            r.initial_marks() == ('[', ']'),
    {
        ProgressThree { iter, i: 0, bound: Unbounded, delims: ('[', ']') }
    }
}

impl<Iter> ProgressThree<Iter, Unbounded> {
    /// Turns the bar into a bounded one of `total` steps in all, drawn between
    /// square brackets.
    pub fn bounded_by(self, total: usize) -> (r: ProgressThree<Iter, Bounded>)
        ensures
            r.inner() == self.inner(),
            r.steps() == self.steps(),
            r.initial_marks() == self.initial_marks(),
            r.state().marks() == ('[', ']'),
            r.state().total() == total,
    {
        let bound = Bounded { bound: total, delims: ('[', ']') };
        ProgressThree { i: self.i, iter: self.iter, bound, delims: self.delims }
    }
}

impl<Iter: ExactSizeIterator> ProgressThree<Iter, Unbounded> {
    /// Turns the bar into a bounded one, as long as the iterator reports,
    /// drawn between square brackets.
    pub fn with_bound_three(self) -> (r: ProgressThree<Iter, Bounded>)
        ensures
            r.inner() == self.inner(),
            r.steps() == self.steps(),
            r.initial_marks() == self.initial_marks(),
            r.state().marks() == ('[', ']'),
    {
        let total = remaining_len(&self.iter);
        self.bounded_by(total)
    }
}

impl<Iter> ProgressThree<Iter, Bounded> {
    /// Draws the bounded bar between `delims` from now on.
    pub fn with_delims(self, delims: (char, char)) -> (r: Self)
        ensures
            r.inner() == self.inner(),
            r.steps() == self.steps(),
            r.initial_marks() == self.initial_marks(),
            r.state().total() == self.state().total(),
            r.state().marks() == delims,
    {
        let mut s = self;
        s.bound.delims = delims;
        s
    }
}

impl<Iter, Bound: ProgressDisplay> ProgressThree<Iter, Bound> {
    /// The bar for the current step, drawn as the state prescribes.
    pub fn line(&self) -> (r: String)
        requires
            self.state().can_show(self.steps()),
        ensures
            r@ == self.state().shown(self.steps()),
    {
        self.bound.display(self)
    }
}

impl<Iter: Iterator, Bound> ProgressThree<Iter, Bound> {
    /// Takes one step: counts it and hands out what the inner iterator yields.
    pub fn next(&mut self) -> (r: Option<Iter::Item>)
        requires
            old(self).steps() < usize::MAX,
        ensures
            final(self).steps() == old(self).steps() + 1,
            final(self).state() == old(self).state(),
            final(self).initial_marks() == old(self).initial_marks(),
            final(self).inner().obeys_prophetic_iter_laws() == old(self).inner().obeys_prophetic_iter_laws(),
            final(self).inner().obeys_prophetic_iter_laws() ==> {
                if old(self).inner().remaining().len() > 0 {
                    &&& final(self).inner().remaining() == old(self).inner().remaining().drop_first()
                    &&& r == Some(old(self).inner().remaining()[0])
                } else {
                    &&& final(self).inner().remaining() == old(self).inner().remaining()
                    &&& r is None
                }
            },
    {
        self.i = self.i + 1;
        self.iter.next()
    }
}

/// Attaches an unbounded step counter to any iterator.
pub trait ProgressThreeIteratorExt: Sized {
    fn progress_three(self) -> (r: ProgressThree<Self, Unbounded>)
        ensures
            r.inner() == self,
            r.steps() == 0,
            r.initial_marks() == ('[', ']');
}

impl<Iter: Iterator> ProgressThreeIteratorExt for Iter {
    fn progress_three(self) -> (r: ProgressThree<Self, Unbounded>) {
        ProgressThree::new(self)
    }
}

} // verus!
