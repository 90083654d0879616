use crate::duration::Duration;
use crate::error::Error;
use crate::point::Spanable;
use vstd::prelude::*;

verus! {

/// A closed span of time from `start` to `end`, where `start` comes strictly
/// before `end`.
#[derive(Clone, Copy, Debug, PartialEq, Eq, Hash)]
pub struct Span<T> {
    pub start: T,
    pub end: T,
}

/// The earlier of two points.
pub open spec fn earlier<T: Spanable>(a: T, b: T) -> T {
    if a.pos() <= b.pos() { a } else { b }
}

/// The later of two points.
pub open spec fn later<T: Spanable>(a: T, b: T) -> T {
    if a.pos() >= b.pos() { a } else { b }
}

impl<T: Spanable> Span<T> {
    /// Both ends are valid points and the start comes strictly before the end.
    pub open spec fn wf(&self) -> bool {
        &&& self.start.wf()
        &&& self.end.wf()
        &&& self.start.pos() < self.end.pos()
    }

    /// Whether `p` lies in the span, both ends included.
    pub open spec fn holds(&self, p: int) -> bool {
        self.start.pos() <= p <= self.end.pos()
    }

    /// What `difference` gives, case by case.
    pub open spec fn spec_difference(self, other: Self) -> Result<Self, Error> {
        let (s, e, os, oe) = (self.start.pos(), self.end.pos(), other.start.pos(), other.end.pos());
        if s >= os && e <= oe {
            Err(Error::Empty)
        } else if e <= os || s >= oe {
            Ok(self)
        } else if e > os && e <= oe && s < os {
            Ok(Span { start: self.start, end: other.start })
        } else if s >= os && s < oe && e > oe {
            Ok(Span { start: other.end, end: self.end })
        } else {
            Err(Error::NotContinuous)
        }
    }

    /// What `symmetric_difference` gives: the two spans joined where one ends
    /// exactly where the other starts.
    pub open spec fn spec_symmetric_difference(self, other: Self) -> Result<Self, Error> {
        if self.end.pos() == other.start.pos() {
            Ok(Span { start: self.start, end: other.end })
        } else if other.end.pos() == self.start.pos() {
            Ok(Span { start: other.start, end: self.end })
        } else {
            Err(Error::NotContinuous)
        }
    }

    /// What `intersection` gives: spans that only touch meet in nothing, spans
    /// with a gap between them meet nowhere.
    pub open spec fn spec_intersection(self, other: Self) -> Result<Self, Error> {
        if self.end.pos() == other.start.pos() || other.end.pos() == self.start.pos() {
            Err(Error::Empty)
        } else if self.end.pos() < other.start.pos() || other.end.pos() < self.start.pos() {
            Err(Error::NotContinuous)
        } else {
            Ok(Span { start: later(self.start, other.start), end: earlier(self.end, other.end) })
        }
    }

    /// What `union` gives: spans with a gap between them have no single union.
    pub open spec fn spec_union(self, other: Self) -> Result<Self, Error> {
        if self.end.pos() < other.start.pos() || other.end.pos() < self.start.pos() {
            Err(Error::NotContinuous)
        } else {
            Ok(Span { start: earlier(self.start, other.start), end: later(self.end, other.end) })
        }
    }

    /// Builds the span from `start` to `end`.
    pub fn new(start: T, end: T) -> (r: Result<Span<T>, Error>)
        requires
            start.wf(),
            end.wf(),
        ensures
            r is Ok <==> start.pos() < end.pos(),
            r matches Ok(s) ==> s.start == start && s.end == end && s.wf(),
            r matches Err(e) ==> e == Error::Ordering,
    {
        if !start.precedes(&end) {
            return Err(Error::Ordering);
        }
        Ok(Span { start, end })
    }

    /// The time from start to end.
    pub fn duration(&self) -> (r: Duration)
        requires
            self.wf(),
        ensures
            r.wf(),
            r@ == self.end.pos() - self.start.pos(),
            r@ > 0,
    {
        self.end.signed_duration_since(&self.start)
    }

    /// The part of `self` that `other` does not cover.
    pub fn difference(&self, other: &Span<T>) -> (r: Result<Span<T>, Error>)
        requires
            self.wf(),
            other.wf(),
        ensures
            r == self.spec_difference(*other),
            r matches Ok(s) ==> s.wf(),
    {
        let s_lt_os = self.start.precedes(&other.start);
        let oe_lt_e = other.end.precedes(&self.end);
        let os_lt_e = other.start.precedes(&self.end);
        let s_lt_oe = self.start.precedes(&other.end);
        if !s_lt_os && !oe_lt_e {
            Err(Error::Empty)
        } else if !os_lt_e {
            Ok(*self)
        } else if !s_lt_oe {
            Ok(*self)
        } else if os_lt_e && !oe_lt_e && s_lt_os {
            Ok(Span { start: self.start, end: other.start })
        } else if !s_lt_os && s_lt_oe && oe_lt_e {
            Ok(Span { start: other.end, end: self.end })
        } else {
            Err(Error::NotContinuous)
        }
    }

    /// The two spans joined into one, where one ends exactly where the other
    /// starts.
    pub fn symmetric_difference(&self, other: &Span<T>) -> (r: Result<Span<T>, Error>)
        requires
            self.wf(),
            other.wf(),
        ensures
            r == self.spec_symmetric_difference(*other),
            r matches Ok(s) ==> s.wf(),
    {
        if same_point(&self.end, &other.start) {
            Ok(Span { start: self.start, end: other.end })
        } else if same_point(&other.end, &self.start) {
            Ok(Span { start: other.start, end: self.end })
        } else {
            Err(Error::NotContinuous)
        }
    }

    /// The part that both spans cover.
    pub fn intersection(&self, other: &Span<T>) -> (r: Result<Span<T>, Error>)
        requires
            self.wf(),
            other.wf(),
        ensures
            r == self.spec_intersection(*other),
            r matches Ok(s) ==> s.wf(),
    {
        if same_point(&self.end, &other.start) || same_point(&other.end, &self.start) {
            Err(Error::Empty)
        } else if self.end.precedes(&other.start) || other.end.precedes(&self.start) {
            Err(Error::NotContinuous)
        } else {
            Ok(Span { start: later_of(&self.start, &other.start), end: earlier_of(&self.end, &other.end) })
        }
    }

    /// The span that both spans together cover.
    pub fn union(&self, other: &Span<T>) -> (r: Result<Span<T>, Error>)
        requires
            self.wf(),
            other.wf(),
        ensures
            r == self.spec_union(*other),
            r matches Ok(s) ==> s.wf(),
    {
        if self.end.precedes(&other.start) || other.end.precedes(&self.start) {
            Err(Error::NotContinuous)
        } else {
            Ok(Span { start: earlier_of(&self.start, &other.start), end: later_of(&self.end, &other.end) })
        }
    }

    /// Whether `item` lies in the span, both ends included.
    pub fn contains(&self, item: &T) -> (r: bool)
        requires
            self.wf(),
            item.wf(),
        ensures
            r == self.holds(item.pos()),
    {
        !item.precedes(&self.start) && !self.end.precedes(item)
    }

    /// Whether the spans share at most an end point.
    pub fn is_disjoint(&self, other: &Span<T>) -> (r: bool)
        requires
            self.wf(),
            other.wf(),
        ensures
            r == (self.end.pos() <= other.start.pos() || self.start.pos() >= other.end.pos()),
    {
        !other.start.precedes(&self.end) || !self.start.precedes(&other.end)
    }

    /// Whether `other` covers `self`.
    pub fn is_subset(&self, other: &Span<T>) -> (r: bool)
        requires
            self.wf(),
            other.wf(),
        ensures
            r == (self.start.pos() >= other.start.pos() && self.end.pos() <= other.end.pos()),
    {
        !self.start.precedes(&other.start) && !other.end.precedes(&self.end)
    }

    /// Whether `self` covers `other`.
    pub fn is_superset(&self, other: &Span<T>) -> (r: bool)
        requires
            self.wf(),
            other.wf(),
        ensures
            r == (self.start.pos() <= other.start.pos() && self.end.pos() >= other.end.pos()),
    {
        !other.start.precedes(&self.start) && !self.end.precedes(&other.end)
    }

    /// The span cut in two at `at`, which must lie strictly inside it.
    pub fn split_off(&self, at: &T) -> (r: Result<(Span<T>, Span<T>), Error>)
        requires
            self.wf(),
            at.wf(),
        ensures
            r is Ok <==> self.start.pos() < at.pos() < self.end.pos(),
            r matches Ok(p) ==> p.0 == (Span { start: self.start, end: *at })
                && p.1 == (Span { start: *at, end: self.end }) && p.0.wf() && p.1.wf(),
            r matches Err(e) ==> e == Error::OutOfRange,
    {
        if !self.start.precedes(at) || !at.precedes(&self.end) {
            return Err(Error::OutOfRange);
        }
        Ok((Span { start: self.start, end: *at }, Span { start: *at, end: self.end }))
    }

    /// Moves the end `time` later; fails, leaving the span as it was, where
    /// the end would no longer come after the start.
    pub fn append(&mut self, time: &Duration) -> (r: Result<(), Error>)
        requires
            old(self).wf(),
            time.wf(),
        ensures
            final(self).wf(),
            final(self).start == old(self).start,
            match T::moved(old(self).end.pos(), time@) {
                None => r == Err::<(), Error>(Error::OutOfRange) && *final(self) == *old(self),
                Some(p) => if p > old(self).start.pos() {
                    r is Ok && final(self).end.pos() == p
                } else {
                    r == Err::<(), Error>(Error::Empty) && *final(self) == *old(self)
                },
            },
    {
        match self.end.checked_add(time) {
            None => Err(Error::OutOfRange),
            Some(new) => {
                if !self.start.precedes(&new) {
                    return Err(Error::Empty);
                }
                self.end = new;
                Ok(())
            },
        }
    }

    /// Moves the start `time` earlier; fails, leaving the span as it was,
    /// where the start would no longer come before the end.
    pub fn prepend(&mut self, time: &Duration) -> (r: Result<(), Error>)
        requires
            old(self).wf(),
            time.wf(),
        ensures
            final(self).wf(),
            final(self).end == old(self).end,
            match T::moved(old(self).start.pos(), -time@) {
                None => r == Err::<(), Error>(Error::OutOfRange) && *final(self) == *old(self),
                Some(p) => if p < old(self).end.pos() {
                    r is Ok && final(self).start.pos() == p
                } else {
                    r == Err::<(), Error>(Error::Empty) && *final(self) == *old(self)
                },
            },
    {
        match self.start.checked_sub(time) {
            None => Err(Error::OutOfRange),
            Some(new) => {
                if !new.precedes(&self.end) {
                    return Err(Error::Empty);
                }
                self.start = new;
                Ok(())
            },
        }
    }

    /// Moves the end `time` earlier; fails, leaving the span as it was, where
    /// the end would no longer come after the start.
    pub fn pop(&mut self, time: &Duration) -> (r: Result<(), Error>)
        requires
            old(self).wf(),
            time.wf(),
        ensures
            final(self).wf(),
            final(self).start == old(self).start,
            match T::moved(old(self).end.pos(), -time@) {
                None => r == Err::<(), Error>(Error::OutOfRange) && *final(self) == *old(self),
                Some(p) => if p > old(self).start.pos() {
                    r is Ok && final(self).end.pos() == p
                } else {
                    r == Err::<(), Error>(Error::Empty) && *final(self) == *old(self)
                },
            },
    {
        match self.end.checked_sub(time) {
            None => Err(Error::OutOfRange),
            Some(new) => {
                if !self.start.precedes(&new) {
                    return Err(Error::Empty);
                }
                self.end = new;
                Ok(())
            },
        }
    }

    /// Moves the start `time` later; fails, leaving the span as it was, where
    /// the start would no longer come before the end.
    pub fn shift(&mut self, time: &Duration) -> (r: Result<(), Error>)
        requires
            old(self).wf(),
            time.wf(),
        ensures
            final(self).wf(),
            final(self).end == old(self).end,
            match T::moved(old(self).start.pos(), time@) {
                None => r == Err::<(), Error>(Error::OutOfRange) && *final(self) == *old(self),
                Some(p) => if p < old(self).end.pos() {
                    r is Ok && final(self).start.pos() == p
                } else {
                    r == Err::<(), Error>(Error::Empty) && *final(self) == *old(self)
                },
            },
    {
        match self.start.checked_add(time) {
            None => Err(Error::OutOfRange),
            Some(new) => {
                if !new.precedes(&self.end) {
                    return Err(Error::Empty);
                }
                self.start = new;
                Ok(())
            },
        }
    }
}

/// A span contains both of its ends.
pub proof fn lemma_contains_ends<T: Spanable>(i: Span<T>)
    requires
        i.wf(),
    ensures
        i.holds(i.start.pos()),
        i.holds(i.end.pos()),
{
}

/// The intersection of two spans does not depend on their order.
pub proof fn lemma_intersection_commutative<T: Spanable>(a: Span<T>, b: Span<T>)
    requires
        a.wf(),
        b.wf(),
    ensures
        a.spec_intersection(b) == b.spec_intersection(a),
{
    if a.start.pos() == b.start.pos() {
        T::lemma_pos_injective(a.start, b.start);
    }
    if a.end.pos() == b.end.pos() {
        T::lemma_pos_injective(a.end, b.end);
    }
}

/// The union of two spans does not depend on their order.
pub proof fn lemma_union_commutative<T: Spanable>(a: Span<T>, b: Span<T>)
    requires
        a.wf(),
        b.wf(),
    ensures
        a.spec_union(b) == b.spec_union(a),
{
    if a.start.pos() == b.start.pos() {
        T::lemma_pos_injective(a.start, b.start);
    }
    if a.end.pos() == b.end.pos() {
        T::lemma_pos_injective(a.end, b.end);
    }
}

/// A span that ends where another starts merges with it into one span, with
/// no gap between them.
pub proof fn lemma_union_touching<T: Spanable>(a: Span<T>, b: Span<T>)
    requires
        a.wf(),
        b.wf(),
        a.end.pos() == b.start.pos(),
    ensures
        a.spec_union(b) == Ok::<Span<T>, Error>(Span { start: a.start, end: b.end }),
        b.spec_union(a) == Ok::<Span<T>, Error>(Span { start: a.start, end: b.end }),
{
}

/// Whether two points are at one position.
fn same_point<T: Spanable>(a: &T, b: &T) -> (r: bool)
    requires
        a.wf(),
        b.wf(),
    ensures
        r == (a.pos() == b.pos()),
{
    !a.precedes(b) && !b.precedes(a)
}

fn earlier_of<T: Spanable>(a: &T, b: &T) -> (r: T)
    requires
        a.wf(),
        b.wf(),
    ensures
        r == earlier(*a, *b),
{
    if b.precedes(a) { *b } else { *a }
}

fn later_of<T: Spanable>(a: &T, b: &T) -> (r: T)
    requires
        a.wf(),
        b.wf(),
    ensures
        r == later(*a, *b),
{
    if a.precedes(b) { *b } else { *a }
}

} // verus!
