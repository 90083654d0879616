use crate::error::Error;
use crate::point::{Formatable, Parsable, Spanable};
use crate::span::Span;
use crate::text::{find, index_of, replace_all, replaced};
use regex::Error as RegexError;
use vstd::prelude::*;

verus! {

/// The placeholder for the start in a template.
pub open spec fn start_token() -> Seq<char> {
    seq!['{', 's', 't', 'a', 'r', 't', '}']
}

/// The placeholder for the end in a template.
pub open spec fn end_token() -> Seq<char> {
    seq!['{', 'e', 'n', 'd', '}']
}

/// The start placeholder as it reads once escaped for a pattern.
pub open spec fn escaped_start_token() -> Seq<char> {
    seq!['\\', '{', 's', 't', 'a', 'r', 't', '\\', '}']
}

/// The end placeholder as it reads once escaped for a pattern.
pub open spec fn escaped_end_token() -> Seq<char> {
    seq!['\\', '{', 'e', 'n', 'd', '\\', '}']
}

/// A group that captures any text.
pub open spec fn any_group() -> Seq<char> {
    seq!['(', '.', '*', ')']
}

/// regex's escaping of a text, so that a pattern matches it literally.
pub uninterp spec fn regex_escaped(s: Seq<char>) -> Seq<char>;

/// Whether regex accepts a pattern.
pub uninterp spec fn pattern_valid(p: Seq<char>) -> bool;

/// The texts of the first two groups of the first match of a pattern in a
/// text, if it matches.
pub uninterp spec fn pattern_groups(p: Seq<char>, s: Seq<char>) -> Option<(Option<Seq<char>>, Option<Seq<char>>)>;

/// Relies on `regex::escape`: the text with each character that has a meaning
/// in a pattern escaped.
#[verifier::external_body]
fn regex_escape(s: &str) -> (r: String)
    ensures
        r@ == regex_escaped(s@),
{
    regex::escape(s)
}

/// Relies on `regex::Regex::new` and `regex::Regex::captures`: the pattern is
/// built, refused with regex's error, and matched against `s`; the texts of
/// its first two groups come back.
#[verifier::external_body]
fn regex_groups(p: &str, s: &str) -> (r: Result<Option<(Option<String>, Option<String>)>, RegexError>)
    ensures
        r is Ok <==> pattern_valid(p@),
        r matches Ok(g) ==> g is Some == pattern_groups(p@, s@) is Some,
        r matches Ok(g) ==> (g matches Some(c) ==> pattern_groups(p@, s@) == Some((
            match c.0 { Some(x) => Some(x@), None => None },
            match c.1 { Some(x) => Some(x@), None => None },
        ))),
{
    let re = regex::Regex::new(p)?;
    Ok(re.captures(s).map(|c| (c.get(1).map(|m| m.as_str().to_string()), c.get(2).map(|m| m.as_str().to_string()))))
}

/// The pattern for a template: the template matched literally, with each
/// placeholder capturing any text.
pub open spec fn template_pattern(fmt: Seq<char>) -> Seq<char> {
    replaced(replaced(regex_escaped(fmt), escaped_start_token(), any_group()), escaped_end_token(), any_group())
}

/// The texts of the start and of the end, from the two captured texts in the
/// order in which the placeholders stand in the template.
pub open spec fn ordered_texts(fmt: Seq<char>, first: Seq<char>, second: Seq<char>) -> (Seq<char>, Seq<char>) {
    if index_of(fmt, start_token())->Some_0 < index_of(fmt, end_token())->Some_0 {
        (first, second)
    } else {
        (second, first)
    }
}

/// `r` is what building a span from the points `x` and `y` gives, where each
/// is `None` if it could not be read.
pub open spec fn built_from<T: Spanable>(r: Result<Span<T>, Error>, x: Option<T>, y: Option<T>) -> bool {
    match (x, y) {
        (Some(a), Some(b)) => if a.pos() < b.pos() {
            r == Ok::<Span<T>, Error>(Span { start: a, end: b })
        } else {
            r == Err::<Span<T>, Error>(Error::Ordering)
        },
        _ => (r matches Err(e) && (e is Parsing || e is OutOfRange)),
    }
}

/// The pattern for the template `fmt`.
fn pattern_for(fmt: &str) -> (r: String)
    ensures
        r@ == template_pattern(fmt@),
{
    let esc = regex_escape(fmt);
    let s1 = "\\{start\\}";
    let s2 = "\\{end\\}";
    let g = "(.*)";
    proof {
        reveal_strlit("\\{start\\}");
        reveal_strlit("\\{end\\}");
        reveal_strlit("(.*)");
        assert(s1@ =~= escaped_start_token());
        assert(s2@ =~= escaped_end_token());
        assert(g@ =~= any_group());
    }
    let step = replace_all(esc.as_str(), s1, g);
    replace_all(step.as_str(), s2, g)
}

/// Builds a span from two points read from texts.
fn build<T: Parsable>(a: &str, b: &str, start: &str, end: &str) -> (r: Result<Span<T>, Error>)
    ensures
        built_from(r, T::read(a@, start@), T::read(b@, end@)),
{
    let x = match T::parse_from_str(a, start) {
        Ok(x) => x,
        Err(e) => return Err(e),
    };
    let y = match T::parse_from_str(b, end) {
        Ok(y) => y,
        Err(e) => return Err(e),
    };
    Span::new(x, y)
}

impl<T: Parsable> Span<T> {
    /// Builds a span from the two texts that a template's placeholders
    /// captured, `first` where the first of them stands in `fmt` and `second`
    /// where the other stands; `start` and `end` are the formats of the points.
    pub fn from_groups(fmt: &str, first: &str, second: &str, start: &str, end: &str) -> (r: Result<Span<T>, Error>)
        ensures
            index_of(fmt@, start_token()) is None ==> r == Err::<Span<T>, Error>(Error::NoStart),
            index_of(fmt@, start_token()) is Some && index_of(fmt@, end_token()) is None
                ==> r == Err::<Span<T>, Error>(Error::NoEnd),
            index_of(fmt@, start_token()) is Some && index_of(fmt@, end_token()) is Some ==> built_from(
                r,
                T::read(ordered_texts(fmt@, first@, second@).0, start@),
                T::read(ordered_texts(fmt@, first@, second@).1, end@),
            ),
    {
        let st = "{start}";
        let et = "{end}";
        proof {
            reveal_strlit("{start}");
            reveal_strlit("{end}");
            assert(st@ =~= start_token());
            assert(et@ =~= end_token());
        }
        let start_idx = match find(fmt, st) {
            Some(i) => i,
            None => return Err(Error::NoStart),
        };
        let end_idx = match find(fmt, et) {
            Some(i) => i,
            None => return Err(Error::NoEnd),
        };
        if start_idx < end_idx {
            build(first, second, start, end)
        } else {
            build(second, first, start, end)
        }
    }

    /// Reads a span from `s` by the template `fmt`, in which `{start}` and
    /// `{end}` stand for the two points, in either order; `start` and `end`
    /// are the formats of the points.
    pub fn parse_from_str(s: &str, fmt: &str, start: &str, end: &str) -> (r: Result<Span<T>, Error>)
        ensures
            !pattern_valid(template_pattern(fmt@)) ==> r matches Err(Error::PatternError(_)),
            pattern_valid(template_pattern(fmt@)) && pattern_groups(template_pattern(fmt@), s@) is None
                ==> r == Err::<Span<T>, Error>(Error::Empty),
            pattern_valid(template_pattern(fmt@)) ==> (pattern_groups(template_pattern(fmt@), s@) matches Some(g)
                ==> match g {
                    (Some(a), Some(b)) => {
                        &&& index_of(fmt@, start_token()) is None ==> r == Err::<Span<T>, Error>(Error::NoStart)
                        &&& index_of(fmt@, start_token()) is Some && index_of(fmt@, end_token()) is None
                            ==> r == Err::<Span<T>, Error>(Error::NoEnd)
                        &&& index_of(fmt@, start_token()) is Some && index_of(fmt@, end_token()) is Some ==> built_from(
                            r,
                            T::read(ordered_texts(fmt@, a, b).0, start@),
                            T::read(ordered_texts(fmt@, a, b).1, end@),
                        )
                    },
                    _ => (r matches Err(e) && (e is NoStart || e is NoEnd || e is BadFormat)),
                }),
    {
        let pattern = pattern_for(fmt);
        let groups = match regex_groups(pattern.as_str(), s) {
            Ok(g) => g,
            Err(e) => return Err(Error::PatternError(e)),
        };
        let (g1, g2) = match groups {
            Some(g) => g,
            None => return Err(Error::Empty),
        };
        match (g1, g2) {
            (Some(a), Some(b)) => Span::from_groups(fmt, a.as_str(), b.as_str(), start, end),
            _ => {
                let st = "{start}";
                let et = "{end}";
                if find(fmt, st).is_none() {
                    Err(Error::NoStart)
                } else if find(fmt, et).is_none() {
                    Err(Error::NoEnd)
                } else {
                    Err(Error::BadFormat)
                }
            },
        }
    }
}

} // verus!
