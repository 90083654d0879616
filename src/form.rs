use crate::error::Error;
use crate::point::{Formatable, Parsable};
use crate::span::Span;
use crate::template::built_from;
use vstd::prelude::*;
use vstd::string::{StrSliceExecFns, StringExecFns};

verus! {

/// Whether `c` is white space.
pub open spec fn is_ws(c: char) -> bool {
    c == ' ' || c == '\t' || c == '\n' || c == '\r'
}

/// Whether the hyphen at `i` has white space on both sides.
pub open spec fn spaced_hyphen_at(s: Seq<char>, i: int) -> bool {
    0 < i && i + 1 < s.len() && s[i] == '-' && is_ws(s[i - 1]) && is_ws(s[i + 1])
}

/// The first index from `i` on of a hyphen with white space on both sides.
pub open spec fn spaced_hyphen_from(s: Seq<char>, i: int) -> Option<int>
    decreases s.len() - i,
{
    if i < 0 || i >= s.len() {
        None
    } else if spaced_hyphen_at(s, i) {
        Some(i)
    } else {
        spaced_hyphen_from(s, i + 1)
    }
}

/// The first index from `i` on of a hyphen.
pub open spec fn hyphen_from(s: Seq<char>, i: int) -> Option<int>
    decreases s.len() - i,
{
    if i < 0 || i >= s.len() {
        None
    } else if s[i] == '-' {
        Some(i)
    } else {
        hyphen_from(s, i + 1)
    }
}

/// The hyphen that separates the two points: the first one with white
/// space on both sides, else the first one.
pub open spec fn separator(s: Seq<char>) -> Option<int> {
    match spaced_hyphen_from(s, 0) {
        Some(i) => Some(i),
        None => hyphen_from(s, 0),
    }
}

/// Where the white space that ends at `i` begins.
pub open spec fn ws_start(s: Seq<char>, i: int) -> int
    decreases i,
{
    if 0 < i <= s.len() && is_ws(s[i - 1]) {
        ws_start(s, i - 1)
    } else {
        i
    }
}

/// Where the white space that begins at `i` ends.
pub open spec fn ws_end(s: Seq<char>, i: int) -> int
    decreases s.len() - i,
{
    if 0 <= i < s.len() && is_ws(s[i]) {
        ws_end(s, i + 1)
    } else {
        i
    }
}

/// The texts of the two points in the plain form of a span: around the
/// separating hyphen and the white space next to it; with no hyphen, all of
/// the text and an empty one.
pub open spec fn split_text(s: Seq<char>) -> (Seq<char>, Seq<char>) {
    match separator(s) {
        Some(i) => (s.subrange(0, ws_start(s, i)), s.subrange(ws_end(s, i + 1), s.len() as int)),
        None => (s, Seq::empty()),
    }
}

/// The plain form of a span from the plain forms of its points.
pub open spec fn joined(a: Seq<char>, b: Seq<char>) -> Seq<char> {
    a + seq![' ', '-', ' '] + b
}

/// Whether no hyphen in `a` comes right after white space.
pub open spec fn no_hyphen_after_ws(a: Seq<char>) -> bool {
    forall|i: int| 0 < i < a.len() && #[trigger] a[i] == '-' ==> !is_ws(a[i - 1])
}

proof fn lemma_spaced_hyphen_joined(a: Seq<char>, b: Seq<char>, k: int)
    requires
        0 <= k <= a.len() + 1,
        no_hyphen_after_ws(a),
    ensures
        spaced_hyphen_from(joined(a, b), k) == Some(a.len() + 1int),
    decreases a.len() + 1 - k,
{
    let s = joined(a, b);
    if k < a.len() + 1 {
        assert(!spaced_hyphen_at(s, k)) by {
            if k < a.len() {
                assert(s[k] == a[k]);
                if k > 0 {
                    assert(s[k - 1] == a[k - 1]);
                }
            } else {
                assert(s[k] == ' ');
            }
        }
        lemma_spaced_hyphen_joined(a, b, k + 1);
    } else {
        assert(s[k] == '-' && s[k - 1] == ' ' && s[k + 1] == ' ');
    }
}

/// Splitting the plain form of a span gives back the texts of its two
/// points, where the first has no hyphen right after white space and white
/// space stands next to neither side of the separator.
pub proof fn lemma_split_joined(a: Seq<char>, b: Seq<char>)
    requires
        no_hyphen_after_ws(a),
        a.len() > 0 ==> !is_ws(a.last()),
        b.len() > 0 ==> !is_ws(b[0]),
    ensures
        split_text(joined(a, b)) == (a, b),
{
    let s = joined(a, b);
    let n = a.len() as int;
    lemma_spaced_hyphen_joined(a, b, 0);
    assert(s[n] == ' ');
    if n > 0 {
        assert(s[n - 1] == a.last());
    }
    assert(ws_start(s, n) == n);
    assert(ws_start(s, n + 1) == n);
    assert(s[n + 2] == ' ');
    if b.len() > 0 {
        assert(s[n + 3] == b[0]);
    }
    assert(ws_end(s, n + 3) == n + 3);
    assert(ws_end(s, n + 2) == n + 3);
    assert(s.subrange(0, n) =~= a);
    assert(s.subrange(n + 3, s.len() as int) =~= b);
}

/// A span written in its plain form reads back as itself, where each point
/// reads back from its own plain form and those forms have the shape that
/// `lemma_split_joined` asks for.
pub proof fn lemma_plain_round_trip<T: Parsable + Formatable>(i: Span<T>, r: Result<Span<T>, Error>)
    requires
        i.wf(),
        T::read_text(i.start.shown()) == Some(i.start),
        T::read_text(i.end.shown()) == Some(i.end),
        no_hyphen_after_ws(i.start.shown()),
        i.start.shown().len() > 0 ==> !is_ws(i.start.shown().last()),
        i.end.shown().len() > 0 ==> !is_ws(i.end.shown()[0]),
        built_from(
            r,
            T::read_text(split_text(joined(i.start.shown(), i.end.shown())).0),
            T::read_text(split_text(joined(i.start.shown(), i.end.shown())).1),
        ),
    ensures
        r == Ok::<Span<T>, Error>(i),
{
    lemma_split_joined(i.start.shown(), i.end.shown());
}

fn is_ws_exec(c: char) -> (r: bool)
    ensures
        r == is_ws(c),
{
    c == ' ' || c == '\t' || c == '\n' || c == '\r'
}

fn find_separator(s: &str, n: usize) -> (r: Option<usize>)
    requires
        n == s@.len(),
    ensures
        r is None <==> separator(s@) is None,
        r matches Some(i) ==> separator(s@) == Some(i as int) && i < n,
{
    let mut i: usize = 0;
    while i < n
        invariant
            n == s@.len(),
            i <= n,
            spaced_hyphen_from(s@, 0) == spaced_hyphen_from(s@, i as int),
        decreases n - i,
    {
        if 0 < i && i + 1 < n && s.get_char(i) == '-' && is_ws_exec(s.get_char(i - 1)) && is_ws_exec(
            s.get_char(i + 1),
        ) {
            return Some(i);
        }
        i = i + 1;
    }
    let mut j: usize = 0;
    while j < n
        invariant
            n == s@.len(),
            j <= n,
            spaced_hyphen_from(s@, 0) is None,
            hyphen_from(s@, 0) == hyphen_from(s@, j as int),
        decreases n - j,
    {
        if s.get_char(j) == '-' {
            return Some(j);
        }
        j = j + 1;
    }
    None
}

fn skip_ws_back(s: &str, n: usize, i: usize) -> (r: usize)
    requires
        n == s@.len(),
        i <= n,
    ensures
        r == ws_start(s@, i as int),
{
    let mut k = i;
    while k > 0 && is_ws_exec(s.get_char(k - 1))
        invariant
            n == s@.len(),
            k <= i <= n,
            ws_start(s@, i as int) == ws_start(s@, k as int),
        decreases k,
    {
        k = k - 1;
    }
    k
}

fn skip_ws_forward(s: &str, n: usize, i: usize) -> (r: usize)
    requires
        n == s@.len(),
        i <= n,
    ensures
        r == ws_end(s@, i as int),
        i <= r <= n,
{
    let mut k = i;
    while k < n && is_ws_exec(s.get_char(k))
        invariant
            n == s@.len(),
            i <= k <= n,
            ws_end(s@, i as int) == ws_end(s@, k as int),
        decreases n - k,
    {
        k = k + 1;
    }
    k
}

proof fn lemma_ws_start_bounds(s: Seq<char>, i: int)
    requires
        0 <= i <= s.len(),
    ensures
        0 <= ws_start(s, i) <= i,
    decreases i,
{
    if 0 < i && is_ws(s[i - 1]) {
        lemma_ws_start_bounds(s, i - 1);
    }
}

/// The texts of the two points in the plain form `s` of a span.
pub fn split_span_text(s: &str) -> (r: (&str, &str))
    ensures
        r.0@ == split_text(s@).0,
        r.1@ == split_text(s@).1,
{
    let n = s.unicode_len();
    match find_separator(s, n) {
        Some(i) => {
            let a = skip_ws_back(s, n, i);
            let b = skip_ws_forward(s, n, i + 1);
            proof {
                lemma_ws_start_bounds(s@, i as int);
            }
            (s.substring_char(0, a), s.substring_char(b, n))
        },
        None => {
            let e = s.substring_char(n, n);
            assert(s@.subrange(n as int, n as int) =~= Seq::<char>::empty());
            proof {
                assert(s@.subrange(0, n as int) =~= s@);
            }
            (s.substring_char(0, n), e)
        },
    }
}

impl<T: Parsable> Span<T> {
    /// Reads a span from its plain form, two points in their own plain forms
    /// around a hyphen.
    pub fn from_str(s: &str) -> (r: Result<Span<T>, Error>)
        ensures
            built_from(r, T::read_text(split_text(s@).0), T::read_text(split_text(s@).1)),
    {
        let (a, b) = split_span_text(s);
        let x = match T::from_str(a) {
            Ok(x) => x,
            Err(e) => return Err(e),
        };
        let y = match T::from_str(b) {
            Ok(y) => y,
            Err(e) => return Err(e),
        };
        Span::new(x, y)
    }
}

impl<T: Parsable> core::str::FromStr for Span<T> {
    type Err = Error;

    fn from_str(s: &str) -> Result<Span<T>, Error> {
        Span::<T>::from_str(s)
    }
}

impl<T: Formatable> Span<T> {
    /// The plain form of the span: its points in their plain forms, joined
    /// by `" - "`.
    pub fn to_string(&self) -> (r: String)
        requires
            self.wf(),
        ensures
            r@ == joined(self.start.shown(), self.end.shown()),
    {
        let sep = " - ";
        proof {
            reveal_strlit(" - ");
        }
        let out = self.start.to_string();
        let out = out.concat(sep);
        let e = self.end.to_string();
        let out = out.concat(e.as_str());
        proof {
            assert(out@ =~= joined(self.start.shown(), self.end.shown()));
        }
        out
    }
}

} // verus!
