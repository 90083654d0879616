use crate::point::Formatable;
use crate::span::Span;
use crate::template::{end_token, start_token};
use crate::text::{replace_all, replaced};
use vstd::prelude::*;

verus! {

/// A span waiting to be written by a template, in which `{start}` and `{end}`
/// stand for its points written under the formats `start` and `end`.
pub struct DelayedFormat<'a, T> {
    pub span: Span<T>,
    pub fmt: &'a str,
    pub start: &'a str,
    pub end: &'a str,
}

/// The text of a span written by the template `fmt`, unless a format does
/// not apply to its point.
pub open spec fn rendered<T: Formatable>(span: Span<T>, fmt: Seq<char>, start: Seq<char>, end: Seq<char>) -> Option<Seq<char>> {
    match (span.start.formatted(start), span.end.formatted(end)) {
        (Some(a), Some(b)) => Some(replaced(replaced(fmt, start_token(), a), end_token(), b)),
        _ => None,
    }
}

impl<'a, T: Formatable> DelayedFormat<'a, T> {
    /// Writes the span: both points under their formats, each put in place of
    /// its placeholder.
    pub fn to_string(&self) -> (r: Option<String>)
        requires
            self.span.wf(),
        ensures
            r is None <==> rendered(self.span, self.fmt@, self.start@, self.end@) is None,
            r matches Some(t) ==> rendered(self.span, self.fmt@, self.start@, self.end@) == Some(t@),
    {
        let a = match self.span.start.format(self.start) {
            Some(a) => a,
            None => return None,
        };
        let b = match self.span.end.format(self.end) {
            Some(b) => b,
            None => return None,
        };
        let st = "{start}";
        let et = "{end}";
        proof {
            reveal_strlit("{start}");
            reveal_strlit("{end}");
            assert(st@ =~= start_token());
            assert(et@ =~= end_token());
        }
        let r1 = replace_all(self.fmt, st, a.as_str());
        Some(replace_all(r1.as_str(), et, b.as_str()))
    }
}

impl<T: Formatable> Span<T> {
    /// The span, to be written by the template `fmt` with its points under
    /// the formats `start` and `end`.
    pub fn format<'a>(&self, fmt: &'a str, start: &'a str, end: &'a str) -> (r: DelayedFormat<'a, T>)
        ensures
            r.span == *self,
            r.fmt == fmt,
            r.start == start,
            r.end == end,
    {
        DelayedFormat { span: *self, fmt, start, end }
    }
}

} // verus!
