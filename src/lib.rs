//! Closed intervals of time over ordered points: construction, algebra,
//! displacement and template-driven parsing and formatting.
pub mod date;
pub mod datetime;
pub mod delayed_format;
pub mod duration;
pub mod error;
pub mod form;
pub mod local;
pub mod point;
pub mod span;
pub mod template;
pub mod text;
pub mod time;

pub use date::Date;
pub use datetime::DateTime;
pub use delayed_format::DelayedFormat;
pub use duration::Duration;
pub use error::Error;
pub use local::LocalLookup;
pub use point::{Formatable, Parsable, Spanable};
pub use span::Span;
pub use time::Time;

use vstd::prelude::*;

verus! {

/// An interval between two times of day.
pub type NaiveTimeSpan = Span<Time>;

/// Another name for a span between two times of day.
pub type Timespan = Span<Time>;

/// An interval between two calendar dates.
pub type NaiveDateSpan = Span<Date>;

/// An interval between two dates with times of day.
pub type NaiveDateTimeSpan = Span<DateTime>;

} // verus!
