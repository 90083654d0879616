use crate::duration::Duration;
use crate::error::Error;
use vstd::prelude::*;

verus! {

/// A point in time that a span can be built over.
///
/// Each point has a position on the time line, in nanoseconds; points are
/// ordered by their positions, and two valid points at one position are equal.
pub trait Spanable: Sized + Copy {
    /// The position of the point, in nanoseconds.
    spec fn pos(&self) -> int;

    /// Whether the value is a point that the type admits.
    spec fn wf(&self) -> bool;

    /// The position reached from position `p` by moving `d` nanoseconds,
    /// or `None` where the type cannot hold it.
    spec fn moved(p: int, d: int) -> Option<int>;

    proof fn lemma_pos_injective(a: Self, b: Self)
        requires
            a.wf(),
            b.wf(),
            a.pos() == b.pos(),
        ensures
            a == b,
    ;

    /// Whether `self` comes strictly before `other`.
    fn precedes(&self, other: &Self) -> (r: bool)
        requires
            self.wf(),
            other.wf(),
        ensures
            r == (self.pos() < other.pos()),
    ;

    /// The point `d` later than `self`, if the type can hold it.
    fn checked_add(&self, d: &Duration) -> (r: Option<Self>)
        requires
            self.wf(),
            d.wf(),
        ensures
            match r {
                Some(p) => p.wf() && Self::moved(self.pos(), d@) == Some(p.pos()),
                None => Self::moved(self.pos(), d@) is None,
            },
    ;

    /// The point `d` earlier than `self`, if the type can hold it.
    fn checked_sub(&self, d: &Duration) -> (r: Option<Self>)
        requires
            self.wf(),
            d.wf(),
        ensures
            match r {
                Some(p) => p.wf() && Self::moved(self.pos(), -d@) == Some(p.pos()),
                None => Self::moved(self.pos(), -d@) is None,
            },
    ;

    /// The time elapsed from `other` to `self`.
    fn signed_duration_since(&self, other: &Self) -> (r: Duration)
        requires
            self.wf(),
            other.wf(),
        ensures
            r.wf(),
            r@ == self.pos() - other.pos(),
    ;
}

/// A point that can be read from text.
pub trait Parsable: Spanable {
    /// The point that `s` reads as under the format `fmt`, if any.
    spec fn read(s: Seq<char>, fmt: Seq<char>) -> Option<Self>;

    /// The point that `s` reads as in the type's plain text form, if any.
    spec fn read_text(s: Seq<char>) -> Option<Self>;

    /// Reads a point from `s` under the format `fmt`.
    fn parse_from_str(s: &str, fmt: &str) -> (r: Result<Self, Error>)
        ensures
            r is Ok <==> Self::read(s@, fmt@) is Some,
            r matches Ok(p) ==> p.wf() && Self::read(s@, fmt@) == Some(p),
            r matches Err(e) ==> e is Parsing || e is OutOfRange,
    ;

    /// Reads a point from `s` in the type's plain text form.
    fn from_str(s: &str) -> (r: Result<Self, Error>)
        ensures
            r is Ok <==> Self::read_text(s@) is Some,
            r matches Ok(p) ==> p.wf() && Self::read_text(s@) == Some(p),
            r matches Err(e) ==> e is Parsing || e is OutOfRange,
    ;
}

/// A point that can be written as text.
pub trait Formatable: Spanable {
    /// The point in the type's plain text form.
    spec fn shown(&self) -> Seq<char>;

    /// The point written under the format `fmt`, unless the format does not
    /// apply to the point.
    spec fn formatted(&self, fmt: Seq<char>) -> Option<Seq<char>>;

    /// Writes the point in the type's plain text form.
    fn to_string(&self) -> (r: String)
        requires
            self.wf(),
        ensures
            r@ == self.shown(),
    ;

    /// Writes the point under the format `fmt`.
    fn format(&self, fmt: &str) -> (r: Option<String>)
        requires
            self.wf(),
        ensures
            r is None <==> self.formatted(fmt@) is None,
            r matches Some(t) ==> self.formatted(fmt@) == Some(t@),
    ;
}

} // verus!
