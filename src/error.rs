use regex::Error as RegexError;
use vstd::prelude::*;

verus! {

#[verifier::external_type_specification]
#[verifier::external_body]
pub struct ExParseError(chrono::ParseError);

#[verifier::external_type_specification]
#[verifier::external_body]
pub struct ExRegexError(RegexError);

/// The ways in which building, combining or parsing a span can fail.
#[derive(Debug)]
pub enum Error {
    /// A point could not be read under its format.
    Parsing(chrono::ParseError),
    /// The template could not be turned into a pattern.
    PatternError(RegexError),
    /// The start is not before the end.
    Ordering,
    /// A point lies outside the span or outside what its type can hold.
    OutOfRange,
    /// The result would be empty.
    Empty,
    /// The result would fall apart into two pieces.
    NotContinuous,
    /// The template has no `{start}`.
    NoStart,
    /// The template has no `{end}`.
    NoEnd,
    /// A local time has no single meaning in its zone.
    LocalAmbiguous,
    /// The input is malformed.
    BadFormat,
}

/// The sentence that describes an error.
pub open spec fn error_text(e: Error) -> Seq<char> {
    match e {
        Error::Parsing(_) => "An error occured while parsing a value"@,
        Error::PatternError(_) => "An error occured while creating a regular expression"@,
        Error::Ordering => "The left value is not smaller than the right value"@,
        Error::OutOfRange => "This resulting value is out of range"@,
        Error::Empty => "The resulting span is empty"@,
        Error::NotContinuous => "The resulting span is not continuous"@,
        Error::NoStart => "The resulting span has no start value"@,
        Error::NoEnd => "The resulting span has no end value"@,
        Error::LocalAmbiguous => "The resulting local time is ambigious"@,
        Error::BadFormat => "The given string has a bad format"@,
    }
}

impl Error {
    /// A sentence that says what went wrong.
    pub fn description(&self) -> (r: &'static str)
        ensures
            r@ == error_text(*self),
    {
        match self {
            Error::Parsing(_) => "An error occured while parsing a value",
            Error::PatternError(_) => "An error occured while creating a regular expression",
            Error::Ordering => "The left value is not smaller than the right value",
            Error::OutOfRange => "This resulting value is out of range",
            Error::Empty => "The resulting span is empty",
            Error::NotContinuous => "The resulting span is not continuous",
            Error::NoStart => "The resulting span has no start value",
            Error::NoEnd => "The resulting span has no end value",
            Error::LocalAmbiguous => "The resulting local time is ambigious",
            Error::BadFormat => "The given string has a bad format",
        }
    }
}

} // verus!
