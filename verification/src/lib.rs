//! Calendar-aware enumeration of UTC timestamps.
//!
//! A [`TimeRange`] describes a bounded span of time — a start instant, an
//! exclusive end instant, a [`TimeStep`] to advance by, an optional weekend
//! skip, and an optional [`TimeFilter`] — and can be consumed either lazily,
//! through [`TimeRangeIter`], or eagerly counted through [`ComputeTimeRange`].
//! Both forms are proved to agree with one mathematical model of the
//! enumeration, so the cheap count is exactly the number of timestamps the
//! iterator yields.
//!
//! Instants are plain `i64` values: seconds since the Unix epoch, on the
//! continuous UTC timeline.

pub mod advance;
pub mod filter;
pub mod iter;
pub mod range;
pub mod step;
pub mod weekday;

pub use filter::AcceptAll;
pub use filter::ExcludeList;
pub use filter::TimeFilter;
pub use iter::TimeRangeIter;
pub use range::ComputeTimeRange;
pub use range::TimeRange;
pub use range::TimeRangeBuilder;
pub use range::TimeRangeError;
pub use step::TimeStep;
