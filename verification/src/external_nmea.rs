//! RMC parsing by the `nmea` crate.
//!
//! Unlike [`crate::timesync::parse_rmc_time_date`] this validates the checksum, reads the years 83
//! to 99 as 19xx, and rejects a leap second.

use vstd::prelude::*;
use crate::timesync::{has_rmc_header, RmcTimeDate};

verus! {

use crate::timesync::is_rmc;
use vstd::string::StringSliceAdditionalSpecFns;

/// The fix that an RMC sentence reports: its time as (hour, minute, second) and its date as
/// (day, month, year), each if the sentence has it.
pub struct RmcFix {
    /// The time of the fix.
    pub time: Option<(u32, u32, u32)>,
    /// The date of the fix.
    pub date: Option<(u32, u32, i32)>,
}

/// The fix that `nmea::parse_str` reads from a sentence; `None` where it reads no RMC sentence.
pub uninterp spec fn nmea_rmc_fix(sentence: Seq<char>) -> Option<RmcFix>;

/// `nmea::parse_str` on a sentence with an RMC header, with the time and the date of the fix taken
/// apart by `chrono`'s accessors. The time is that of a clock without leap seconds; the date is a
/// date of the years that two digits stand for.
#[verifier::external_body]
fn parse_fix(sentence: &str) -> (r: Option<RmcFix>)
    requires
        is_rmc(sentence.spec_bytes()),
    ensures
        r == nmea_rmc_fix(sentence@),
        r is Some && r->0.time is Some ==> {
            let t = r->0.time->0;
            t.0 < 24 && t.1 < 60 && t.2 < 60
        },
        r is Some && r->0.date is Some ==> {
            let d = r->0.date->0;
            1 <= d.0 <= 31 && 1 <= d.1 <= 12 && 1983 <= d.2 <= 2082
        },
{
    match nmea::parse_str(sentence) {
        Ok(nmea::ParseResult::RMC(rmc)) => Some(RmcFix {
            time: rmc.fix_time.map(|t| {
                (chrono::Timelike::hour(&t), chrono::Timelike::minute(&t), chrono::Timelike::second(&t))
            }),
            date: rmc.fix_date.map(|d| {
                (chrono::Datelike::day(&d), chrono::Datelike::month(&d), chrono::Datelike::year(&d))
            }),
        }),
        _ => None,
    }
}

/// The time and date of a fix, if it has both.
pub open spec fn time_date_of(fix: Option<RmcFix>) -> Option<RmcTimeDate> {
    match fix {
        Some(f) => match (f.time, f.date) {
            (Some(t), Some(d)) => Some(
                ((t.0 as u8, t.1 as u8, t.2 as u8), (d.0 as u8, d.1 as u8, d.2 as u16)),
            ),
            _ => None,
        },
        None => None,
    }
}

/// The time and date of a fix, if it has both.
pub fn fix_time_date(fix: Option<RmcFix>) -> (r: Option<RmcTimeDate>)
    ensures
        r == time_date_of(fix),
{
    match fix {
        Some(f) => match (f.time, f.date) {
            (Some(t), Some(d)) => Some(
                ((t.0 as u8, t.1 as u8, t.2 as u8), (d.0 as u8, d.1 as u8, d.2 as u16)),
            ),
            _ => None,
        },
        None => None,
    }
}

/// Extracts `((hour, min, sec), (day, month, year))` from an RMC sentence; `None` for any other
/// sentence, a malformed one, or one with a wrong checksum.
pub fn parse_rmc_time_date(sentence: &str) -> (r: Option<RmcTimeDate>)
    ensures
        !is_rmc(sentence.spec_bytes()) ==> r is None,
        is_rmc(sentence.spec_bytes()) ==> r == time_date_of(nmea_rmc_fix(sentence@)),
        r is Some ==> {
            let ((h, mi, s), (d, mo, y)) = r->0;
            &&& h < 24 && mi < 60 && s < 60
            &&& 1 <= d <= 31 && 1 <= mo <= 12 && 1983 <= y <= 2082
        },
{
    if !has_rmc_header(sentence) {
        return None;
    }
    fix_time_date(parse_fix(sentence))
}

/// A fix gives its time and its date unaltered, and gives nothing unless it has both.
pub proof fn law_fix_gives_both_or_nothing(fix: RmcFix, h: u8, mi: u8, s: u8, d: u8, mo: u8, y: u16)
    ensures
        fix.time == Some((h as u32, mi as u32, s as u32)) && fix.date == Some(
            (d as u32, mo as u32, y as i32),
        ) ==> time_date_of(Some(fix)) == Some(((h, mi, s), (d, mo, y))),
        fix.time is None || fix.date is None ==> time_date_of(Some(fix)) is None,
        time_date_of(None) is None,
{
}

} // verus!
