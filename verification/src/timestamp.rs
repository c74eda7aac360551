//! Points in time as plain numbers, and their rendering as local time.

use vstd::prelude::*;

verus! {

/// A point in time: whole seconds since 1970-01-01T00:00:00Z (negative before
/// it) and the nanoseconds past that second.
#[derive(Debug, Clone, Copy, PartialEq, Eq, Structural)]
pub struct Timestamp {
    pub secs: i64,
    pub nanos: u32,
}

impl Timestamp {
    pub fn new(secs: i64, nanos: u32) -> (r: Timestamp)
        ensures
            r == (Timestamp { secs: secs, nanos: nanos }),
    {
        Timestamp { secs, nanos }
    }
}

/// A point in time together with the offset of local time at that moment:
/// how many seconds local clocks are ahead of UTC (negative where they are
/// behind).
#[derive(Debug, Clone, Copy, PartialEq, Eq, Structural)]
pub struct LocalTime {
    pub at: Timestamp,
    pub utc_offset: i32,
}

impl LocalTime {
    pub fn new(at: Timestamp, utc_offset: i32) -> (r: LocalTime)
        ensures
            r == (LocalTime { at: at, utc_offset: utc_offset }),
    {
        LocalTime { at, utc_offset }
    }
}

/// The text that chrono writes for the instant `secs`, `nanos` past the Unix
/// epoch, seen at `utc_offset` seconds east of UTC, with a `strftime`
/// pattern; `None` where chrono cannot hold the instant or the offset, or
/// cannot write the instant with this pattern.
pub uninterp spec fn local_time_text(secs: i64, nanos: u32, utc_offset: i32, pattern: Seq<char>)
    -> Option<Seq<char>>;

/// The pattern of a calendar day, `YYYY-MM-DD`.
pub open spec fn date_pattern() -> Seq<char> {
    "%Y-%m-%d"@
}

/// The pattern of a moment in a file name, `YYYYMMDD_HHMMSS`.
pub open spec fn stamp_pattern() -> Seq<char> {
    "%Y%m%d_%H%M%S"@
}

impl LocalTime {
    /// The local calendar day of this moment, as `YYYY-MM-DD`.
    pub open spec fn date_text(self) -> Option<Seq<char>> {
        local_time_text(self.at.secs, self.at.nanos, self.utc_offset, date_pattern())
    }

    /// This moment in local time, as `YYYYMMDD_HHMMSS`.
    pub open spec fn stamp_text(self) -> Option<Seq<char>> {
        local_time_text(self.at.secs, self.at.nanos, self.utc_offset, stamp_pattern())
    }
}

/// Writes a moment as local time, by `chrono::DateTime::from_timestamp`,
/// `chrono::FixedOffset::east_opt`, `DateTime::with_timezone` and
/// `DateTime::format` with `pattern`, written out by
/// `DelayedFormat::write_to`. `None` where one of the first two or the last
/// refuses. The contract names the result, as [`local_time_text`].
#[verifier::external_body]
pub(crate) fn format_local(time: LocalTime, pattern: &str) -> (r: Option<String>)
    ensures
        match r {
            Some(text) => local_time_text(time.at.secs, time.at.nanos, time.utc_offset, pattern@)
                == Some(text@),
            None => local_time_text(time.at.secs, time.at.nanos, time.utc_offset, pattern@)
                is None,
        },
{
    let utc = chrono::DateTime::from_timestamp(time.at.secs, time.at.nanos)?;
    let zone = chrono::FixedOffset::east_opt(time.utc_offset)?;
    let mut out = String::new();
    match utc.with_timezone(&zone).format(pattern).write_to(&mut out) {
        Ok(()) => Some(out),
        Err(_) => None,
    }
}

} // verus!
