use vstd::prelude::*;

verus! {

/// One step of the enumeration: a signed count of a fixed-length calendar unit.
#[derive(Clone, Copy, Debug, PartialEq, Eq, Structural)]
pub enum TimeStep {
    /// Step by a given number of seconds
    Second(i64),
    /// Step by a given number of minutes
    Minute(i64),
    /// Step by a given number of hours
    Hour(i64),
    /// Step by a given number of days
    Day(i64),
}

/// The decimal rendering of a signed integer, as std's formatting produces it.
pub uninterp spec fn decimal_of(n: int) -> Seq<char>;

/// Relies on std's `format!` to render a signed count in decimal, then a space,
/// then the unit word.
#[verifier::external_body]
fn render_count(n: i64, unit: &str) -> (r: String)
    ensures
        r@ == decimal_of(n as int) + " "@ + unit@,
{
    format!("{} {}", n, unit)
}

impl TimeStep {
    /// The exact length of this step in seconds: seconds count as themselves,
    /// minutes as 60, hours as 3600, and days as 86400 seconds.
    pub open spec fn spec_seconds(self) -> int {
        match self {
            TimeStep::Second(s) => s as int,
            TimeStep::Minute(m) => m as int * 60,
            TimeStep::Hour(h) => h as int * 3600,
            TimeStep::Day(d) => d as int * 86400,
        }
    }

    /// Returns the total step size in seconds.
    pub fn as_total_seconds(&self) -> (r: i64)
        requires
            i64::MIN <= self.spec_seconds() <= i64::MAX,
        ensures
            r as int == self.spec_seconds(),
    {
        match self {
            TimeStep::Second(s) => *s,
            TimeStep::Minute(m) => *m * 60,
            TimeStep::Hour(h) => *h * 3600,
            TimeStep::Day(d) => *d * 86400,
        }
    }

    /// True exactly when the step moves strictly forward in time.
    pub fn is_forward(&self) -> (r: bool)
        ensures
            r == (self.spec_seconds() > 0),
    {
        match self {
            TimeStep::Second(s) => *s > 0,
            TimeStep::Minute(m) => *m > 0,
            TimeStep::Hour(h) => *h > 0,
            TimeStep::Day(d) => *d > 0,
        }
    }

    /// The rendering of the step: the count in decimal, a space, and the unit
    /// word, such as "6 hour(s)".
    pub open spec fn spec_describe(self) -> Seq<char> {
        match self {
            TimeStep::Second(s) => decimal_of(s as int) + " "@ + "second(s)"@,
            TimeStep::Minute(m) => decimal_of(m as int) + " "@ + "minute(s)"@,
            TimeStep::Hour(h) => decimal_of(h as int) + " "@ + "hour(s)"@,
            TimeStep::Day(d) => decimal_of(d as int) + " "@ + "day(s)"@,
        }
    }

    /// Render the step for display, e.g. "6 hour(s)".
    pub fn describe(&self) -> (r: String)
        ensures
            r@ == self.spec_describe(),
    {
        match self {
            TimeStep::Second(s) => render_count(*s, "second(s)"),
            TimeStep::Minute(m) => render_count(*m, "minute(s)"),
            TimeStep::Hour(h) => render_count(*h, "hour(s)"),
            TimeStep::Day(d) => render_count(*d, "day(s)"),
        }
    }
}

} // verus!
