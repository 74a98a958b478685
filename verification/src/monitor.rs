//! Progress reporting: a snapshot of the monitoring counters and the line
//! that is printed for it.

use size_format::SizeFormatterBinary;
use vstd::prelude::*;
use vstd::string::StringExecFns;

use crate::text::decimal;
use crate::text::push_decimal;

verus! {

/// Seconds between two progress reports.
pub const REPORT_INTERVAL_SECONDS: u64 = 1;

/// A snapshot of the monitoring counters.
#[derive(Debug, PartialEq, Eq, Copy, Clone, Structural)]
pub struct Report {
    /// Receive time of the record merged last, in seconds since the epoch.
    pub last_processed: i64,
    /// Bytes counted for the records merged since the last successful flush.
    pub cache_size: usize,
    /// Bytes of all records received since the report before this one.
    pub transferred: u64,
}

/// The text of a time given in seconds since the epoch, as a UTC date and
/// time where it has one.
pub uninterp spec fn utc_time_text(seconds: i64) -> Seq<char>;

/// The text of an amount scaled to the largest binary prefix that fits.
pub uninterp spec fn binary_size_text(amount: u64) -> Seq<char>;

/// The line printed for a report, given the texts of its time and of the
/// bits transferred.
pub open spec fn composed_report(time: Seq<char>, cache_size: usize, transferred: Seq<char>) -> Seq<
    char,
> {
    "Latest processed: "@ + time + ", size of cache: "@ + decimal(cache_size as nat)
        + ", bytes transferred since last print: "@ + transferred + "b"@
}

/// The line printed for a report. The amount transferred is given in bits.
pub open spec fn report_text(report: Report) -> Seq<char> {
    composed_report(
        utc_time_text(report.last_processed),
        report.cache_size,
        binary_size_text((report.transferred * 8) as u64),
    )
}

/// Calls `chrono::DateTime::from_timestamp` with no nanoseconds and formats
/// what it returns for debugging. The contract gives that text a name and
/// claims only that it is a function of the seconds.
#[verifier::external_body]
fn format_utc_time(seconds: i64) -> (text: String)
    ensures
        text@ == utc_time_text(seconds),
{
    format!("{:?}", chrono::DateTime::from_timestamp(seconds, 0))
}

/// Formats an amount with `size_format::SizeFormatterBinary`. The contract
/// gives that text a name and claims only that it is a function of the
/// amount.
#[verifier::external_body]
fn format_binary_size(amount: u64) -> (text: String)
    ensures
        text@ == binary_size_text(amount),
{
    format!("{}", SizeFormatterBinary::new(amount))
}

/// Puts the line of a report together from the texts of its time and of the
/// bits transferred.
pub fn compose_report(time: &str, cache_size: usize, transferred: &str) -> (line: String)
    ensures
        line@ == composed_report(time@, cache_size, transferred@),
{
    let mut line = String::from_str("Latest processed: ");
    line.append(time);
    line.append(", size of cache: ");
    push_decimal(&mut line, cache_size as u64);
    line.append(", bytes transferred since last print: ");
    line.append(transferred);
    line.append("b");
    line
}

impl Report {
    /// Whether the amount transferred can be given in bits within 64 bits.
    pub open spec fn printable(self) -> bool {
        self.transferred * 8 <= u64::MAX
    }

    /// Tells whether the amount transferred can be given in bits within 64
    /// bits.
    pub fn is_printable(&self) -> (r: bool)
        ensures
            r == self.printable(),
    {
        self.transferred <= u64::MAX / 8
    }

    /// The line printed for the report.
    pub fn line(&self) -> (line: String)
        requires
            self.printable(),
        ensures
            line@ == report_text(*self),
    {
        let time = format_utc_time(self.last_processed);
        let transferred = format_binary_size(self.transferred * 8);
        compose_report(time.as_str(), self.cache_size, transferred.as_str())
    }
}

} // verus!
