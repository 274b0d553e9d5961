//! Named time ranges for queries.

use vstd::prelude::*;
use crate::text::{equals, lower_of, lowercase};

verus! {

/// A time range for querying stats; custom bounds are milliseconds since the Unix epoch.
#[derive(Debug, Clone, Copy, PartialEq, Eq, Structural)]
pub enum TimeRange {
    Today,
    Yesterday,
    ThisWeek,
    LastWeek,
    ThisMonth,
    LastMonth,
    ThisYear,
    LastYear,
    Last7Days,
    Last30Days,
    Last90Days,
    AllTime,
    Custom { start: i64, end: i64 },
}

/// The range that a lower-case name stands for.
pub open spec fn range_named(s: Seq<char>) -> Option<TimeRange> {
    if s == "today"@ {
        Some(TimeRange::Today)
    } else if s == "yesterday"@ {
        Some(TimeRange::Yesterday)
    } else if s == "week"@ || s == "this-week"@ || s == "thisweek"@ {
        Some(TimeRange::ThisWeek)
    } else if s == "last-week"@ || s == "lastweek"@ {
        Some(TimeRange::LastWeek)
    } else if s == "month"@ || s == "this-month"@ || s == "thismonth"@ {
        Some(TimeRange::ThisMonth)
    } else if s == "last-month"@ || s == "lastmonth"@ {
        Some(TimeRange::LastMonth)
    } else if s == "year"@ || s == "this-year"@ || s == "thisyear"@ {
        Some(TimeRange::ThisYear)
    } else if s == "last-year"@ || s == "lastyear"@ {
        Some(TimeRange::LastYear)
    } else if s == "7d"@ || s == "7days"@ || s == "last7days"@ {
        Some(TimeRange::Last7Days)
    } else if s == "30d"@ || s == "30days"@ || s == "last30days"@ {
        Some(TimeRange::Last30Days)
    } else if s == "90d"@ || s == "90days"@ || s == "last90days"@ || s == "3months"@ {
        Some(TimeRange::Last90Days)
    } else if s == "all"@ || s == "alltime"@ || s == "all-time"@ {
        Some(TimeRange::AllTime)
    } else {
        None
    }
}

impl TimeRange {
    /// The range named by `s`, in any case.
    pub fn parse(s: &str) -> (r: Option<TimeRange>)
        ensures
            r == range_named(lower_of(s@)),
    {
        let lower = lowercase(s);
        TimeRange::parse_lowercase(&lower)
    }

    /// The range named by `s`, which is already in lower case.
    pub fn parse_lowercase(s: &String) -> (r: Option<TimeRange>)
        ensures
            r == range_named(s@),
    {
        if equals(s, "today") {
            Some(TimeRange::Today)
        } else if equals(s, "yesterday") {
            Some(TimeRange::Yesterday)
        } else if equals(s, "week") || equals(s, "this-week") || equals(s, "thisweek") {
            Some(TimeRange::ThisWeek)
        } else if equals(s, "last-week") || equals(s, "lastweek") {
            Some(TimeRange::LastWeek)
        } else if equals(s, "month") || equals(s, "this-month") || equals(s, "thismonth") {
            Some(TimeRange::ThisMonth)
        } else if equals(s, "last-month") || equals(s, "lastmonth") {
            Some(TimeRange::LastMonth)
        } else if equals(s, "year") || equals(s, "this-year") || equals(s, "thisyear") {
            Some(TimeRange::ThisYear)
        } else if equals(s, "last-year") || equals(s, "lastyear") {
            Some(TimeRange::LastYear)
        } else if equals(s, "7d") || equals(s, "7days") || equals(s, "last7days") {
            Some(TimeRange::Last7Days)
        } else if equals(s, "30d") || equals(s, "30days") || equals(s, "last30days") {
            Some(TimeRange::Last30Days)
        } else if equals(s, "90d") || equals(s, "90days") || equals(s, "last90days") || equals(
            s,
            "3months",
        ) {
            Some(TimeRange::Last90Days)
        } else if equals(s, "all") || equals(s, "alltime") || equals(s, "all-time") {
            Some(TimeRange::AllTime)
        } else {
            None
        }
    }
}

} // verus!
