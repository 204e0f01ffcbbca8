//! Metrics query parameters: time ranges and granularity.
//!
//! The aggregation queries themselves run in the persistence layer; the
//! library owns only the parameter types and their arithmetic.

use vstd::prelude::*;
use vstd::string::StringExecFns;

use crate::ids::now_millis;
use crate::text::{bytes_eq, lower_bytes, lower_vec, utf8_bytes};

verus! {

/// Time range for metrics queries.
#[derive(Clone, Copy, PartialEq, Eq, Structural, Debug)]
pub enum TimeRange {
    /// The last 24 hours.
    Last24h,
    /// The last 7 days.
    Last7d,
    /// The last 30 days.
    Last30d,
    /// The last 90 days.
    Last90d,
}

impl TimeRange {
    /// The number of hours this range covers.
    pub open spec fn hours_spec(self) -> int {
        match self {
            TimeRange::Last24h => 24int,
            TimeRange::Last7d => 168int,
            TimeRange::Last30d => 720int,
            TimeRange::Last90d => 2160int,
        }
    }

    /// The number of hours this range covers.
    pub fn hours(&self) -> (r: i64)
        ensures
            r == self.hours_spec(),
    {
        match self {
            TimeRange::Last24h => 24,
            TimeRange::Last7d => 24 * 7,
            TimeRange::Last30d => 24 * 30,
            TimeRange::Last90d => 24 * 90,
        }
    }

    /// The start of this range, in milliseconds since the Unix epoch,
    /// measured back from the current clock; saturates rather than
    /// wrapping.
    pub fn start_time(&self) -> i64 {
        let now = now_millis();
        let span = self.hours() * 3600_000;
        match now.checked_sub(span) {
            Some(s) => s,
            None => i64::MIN,
        }
    }

    /// Parse a range name such as `7d`, case-insensitively.
    pub fn parse(s: &str) -> (r: Result<TimeRange, String>)
        ensures
            match r {
                Ok(TimeRange::Last24h) => {
                    ||| lower_bytes(utf8_bytes(s@)) == utf8_bytes("24h"@)
                    ||| lower_bytes(utf8_bytes(s@)) == utf8_bytes("last24h"@)
                },
                Ok(TimeRange::Last7d) => {
                    ||| lower_bytes(utf8_bytes(s@)) == utf8_bytes("7d"@)
                    ||| lower_bytes(utf8_bytes(s@)) == utf8_bytes("last7d"@)
                },
                Ok(TimeRange::Last30d) => {
                    ||| lower_bytes(utf8_bytes(s@)) == utf8_bytes("30d"@)
                    ||| lower_bytes(utf8_bytes(s@)) == utf8_bytes("last30d"@)
                },
                Ok(TimeRange::Last90d) => {
                    ||| lower_bytes(utf8_bytes(s@)) == utf8_bytes("90d"@)
                    ||| lower_bytes(utf8_bytes(s@)) == utf8_bytes("last90d"@)
                },
                Err(e) => e@ == "Invalid time range: "@ + s@ + ". Use 24h, 7d, 30d, or 90d"@,
            },
    {
        let low = lower_vec(s.as_bytes());
        if bytes_eq(low.as_slice(), "24h".as_bytes()) || bytes_eq(
            low.as_slice(),
            "last24h".as_bytes(),
        ) {
            Ok(TimeRange::Last24h)
        } else if bytes_eq(low.as_slice(), "7d".as_bytes()) || bytes_eq(
            low.as_slice(),
            "last7d".as_bytes(),
        ) {
            Ok(TimeRange::Last7d)
        } else if bytes_eq(low.as_slice(), "30d".as_bytes()) || bytes_eq(
            low.as_slice(),
            "last30d".as_bytes(),
        ) {
            Ok(TimeRange::Last30d)
        } else if bytes_eq(low.as_slice(), "90d".as_bytes()) || bytes_eq(
            low.as_slice(),
            "last90d".as_bytes(),
        ) {
            Ok(TimeRange::Last90d)
        } else {
            let mut msg = String::from_str("Invalid time range: ");
            msg.append(s);
            msg.append(". Use 24h, 7d, 30d, or 90d");
            Err(msg)
        }
    }
}

impl core::str::FromStr for TimeRange {
    type Err = String;

    fn from_str(s: &str) -> Result<TimeRange, String> {
        TimeRange::parse(s)
    }
}

impl Default for TimeRange {
    /// Seven days, unless asked otherwise.
    fn default() -> (r: TimeRange)
        ensures
            r == TimeRange::Last7d,
    {
        TimeRange::Last7d
    }
}

/// Granularity for time-series data.
#[derive(Clone, Copy, PartialEq, Eq, Structural, Debug)]
pub enum Granularity {
    /// Hourly data points.
    Hour,
    /// Daily data points.
    Day,
}

impl Granularity {
    /// Parse a granularity name, case-insensitively.
    pub fn parse(s: &str) -> (r: Result<Granularity, String>)
        ensures
            match r {
                Ok(Granularity::Hour) => {
                    ||| lower_bytes(utf8_bytes(s@)) == utf8_bytes("hour"@)
                    ||| lower_bytes(utf8_bytes(s@)) == utf8_bytes("hourly"@)
                },
                Ok(Granularity::Day) => {
                    ||| lower_bytes(utf8_bytes(s@)) == utf8_bytes("day"@)
                    ||| lower_bytes(utf8_bytes(s@)) == utf8_bytes("daily"@)
                },
                Err(e) => e@ == "Invalid granularity: "@ + s@ + ". Use hour or day"@,
            },
    {
        let low = lower_vec(s.as_bytes());
        if bytes_eq(low.as_slice(), "hour".as_bytes()) || bytes_eq(
            low.as_slice(),
            "hourly".as_bytes(),
        ) {
            Ok(Granularity::Hour)
        } else if bytes_eq(low.as_slice(), "day".as_bytes()) || bytes_eq(
            low.as_slice(),
            "daily".as_bytes(),
        ) {
            Ok(Granularity::Day)
        } else {
            let mut msg = String::from_str("Invalid granularity: ");
            msg.append(s);
            msg.append(". Use hour or day");
            Err(msg)
        }
    }
}

impl core::str::FromStr for Granularity {
    type Err = String;

    fn from_str(s: &str) -> Result<Granularity, String> {
        Granularity::parse(s)
    }
}

impl Default for Granularity {
    /// Daily data points, unless asked otherwise.
    fn default() -> (r: Granularity)
        ensures
            r == Granularity::Day,
    {
        Granularity::Day
    }
}

} // verus!
