//! Date and time text, through chrono's strftime-style formatting.

use vstd::prelude::*;
use crate::metrics::LocalTime;
use crate::styled::opt_text;

verus! {

/// The text that chrono writes for the instant `unix_seconds` (plus
/// `nanos`) seen at UTC offset `utc_offset_seconds`, under the format
/// string `format`; `None` where chrono rejects the format, the offset or
/// the instant.
pub uninterp spec fn time_text(
    unix_seconds: i64,
    nanos: u32,
    utc_offset_seconds: i32,
    format: Seq<char>,
) -> Option<Seq<char>>;

/// Relies on chrono's `FixedOffset::east_opt`, `DateTime::from_timestamp`,
/// `DateTime::with_timezone`, `DateTime::format` and
/// `DelayedFormat::write_to`: the formatted text of a fixed instant and
/// offset, or an error for a format item it cannot write.
#[verifier::external_body]
pub(crate) fn format_time(t: &LocalTime, format: &str) -> (r: Option<String>)
    ensures
        opt_text(r) == time_text(t.unix_seconds, t.nanos, t.utc_offset_seconds, format@),
{
    let offset = chrono::FixedOffset::east_opt(t.utc_offset_seconds)?;
    let utc = chrono::DateTime::from_timestamp(t.unix_seconds, t.nanos)?;
    let mut text = String::new();
    utc.with_timezone(&offset).format(format).write_to(&mut text).ok()?;
    Some(text)
}

} // verus!
