use crate::error::Error;
use crate::point::Spanable;
use crate::span::Span;
use vstd::prelude::*;

verus! {

/// What looking up a local date or time in a time zone found.
#[derive(Clone, Copy, Debug, PartialEq, Eq)]
pub enum LocalLookup<T> {
    /// The local time does not occur in the zone (it falls in a gap).
    Missing,
    /// The local time names exactly one point.
    Single(T),
    /// The local time occurs twice (it falls in an overlap): the earlier and
    /// the later point.
    Ambiguous(T, T),
}

impl<T: Spanable> LocalLookup<T> {
    /// The one point found, or `LocalAmbiguous` where there is none or more
    /// than one.
    pub fn single(self) -> (r: Result<T, Error>)
        ensures
            match self {
                LocalLookup::Single(p) => r == Ok::<T, Error>(p),
                _ => r == Err::<T, Error>(Error::LocalAmbiguous),
            },
    {
        match self {
            LocalLookup::Single(p) => Ok(p),
            _ => Err(Error::LocalAmbiguous),
        }
    }
}

impl<T: Spanable> Span<T> {
    /// Builds a span from what looking up its start and its end as local
    /// times in a zone found.
    pub fn from_local_lookups(start: LocalLookup<T>, end: LocalLookup<T>) -> (r: Result<Span<T>, Error>)
        requires
            start matches LocalLookup::Single(p) ==> p.wf(),
            end matches LocalLookup::Single(p) ==> p.wf(),
        ensures
            match (start, end) {
                (LocalLookup::Single(a), LocalLookup::Single(b)) => if a.pos() < b.pos() {
                    r == Ok::<Span<T>, Error>(Span { start: a, end: b })
                } else {
                    r == Err::<Span<T>, Error>(Error::Ordering)
                },
                _ => r == Err::<Span<T>, Error>(Error::LocalAmbiguous),
            },
    {
        let a = match start.single() {
            Ok(a) => a,
            Err(e) => return Err(e),
        };
        let b = match end.single() {
            Ok(b) => b,
            Err(e) => return Err(e),
        };
        Span::new(a, b)
    }
}

} // verus!
