//! Rendering of STDF epoch timestamps in the machine's local time zone.

use vstd::prelude::*;

verus! {

/// Relies on chrono (`DateTime::from_timestamp`, `with_timezone`,
/// `format`): renders the epoch timestamp as `YYYY-MM-DD HH:MM:SS` in
/// the machine's local time zone.  The text depends on that time zone,
/// so nothing more is promised of it.
#[verifier::external_body]
pub fn u32_to_localtime(timestamp: u32) -> (r: String) {
    match chrono::DateTime::from_timestamp(timestamp as i64, 0) {
        Some(utc) => utc.with_timezone(&chrono::Local).format("%Y-%m-%d %H:%M:%S").to_string(),
        None => String::new(),
    }
}

} // verus!
