//! Clock discipline via PPS (time sync).
//!
//! A GNSS 1PPS rising edge coincides with the UTC second boundary. Pairing the local timer value at
//! that instant with the UTC second obtained from NMEA maintains a microsecond-precision UTC epoch
//! on the device. The pairing must happen where the edge is timestamped: doing it on a host would
//! add the transport's jitter.

use vstd::prelude::*;
use crate::text::{find_byte, find_field, parse_decimal_pair};

verus! {

use crate::arith::{in_i64, tdiv};
use crate::text::{decimal_pair, first_at, nth_field};
use vstd::string::StringSliceAdditionalSpecFns;

/// Whether a year of the proleptic Gregorian calendar is a leap year.
pub open spec fn is_leap(y: int) -> bool {
    y % 4 == 0 && (y % 100 != 0 || y % 400 == 0)
}

/// The number of leap years before year `y` (counted from year 1; negative before it).
pub open spec fn leap_years_before(y: int) -> int {
    (y - 1) / 4 - (y - 1) / 100 + (y - 1) / 400
}

/// Days in a common year before month `m` (1 to 12).
pub open spec fn days_before_month(m: int) -> int {
    if m <= 1 {
        0
    } else if m == 2 {
        31
    } else if m == 3 {
        59
    } else if m == 4 {
        90
    } else if m == 5 {
        120
    } else if m == 6 {
        151
    } else if m == 7 {
        181
    } else if m == 8 {
        212
    } else if m == 9 {
        243
    } else if m == 10 {
        273
    } else if m == 11 {
        304
    } else {
        334
    }
}

/// Days in month `m` of year `y`.
pub open spec fn days_in_month(y: int, m: int) -> int {
    if m == 2 {
        if is_leap(y) {
            29
        } else {
            28
        }
    } else if m == 4 || m == 6 || m == 9 || m == 11 {
        30
    } else {
        31
    }
}

/// Days from 1970-01-01 to a date: the days of the whole years between, of the whole months of its
/// year, and of its month.
pub open spec fn calendar_days(y: int, m: int, d: int) -> int {
    365 * (y - 1970) + leap_years_before(y) - leap_years_before(1970) + days_before_month(m) + (
    if m > 2 && is_leap(y) {
        1int
    } else {
        0
    }) + d - 1
}

/// The year that starts in March and holds the month `m` of year `y`.
pub open spec fn march_year(y: int, m: int) -> int {
    if m <= 2 {
        y - 1
    } else {
        y
    }
}

/// The month counted from March.
pub open spec fn march_month(m: int) -> int {
    if m > 2 {
        m - 3
    } else {
        m + 9
    }
}

/// Days from 1970-01-01, with years that start in March. For the twelve months this is
/// [`calendar_days`]; it extends the count linearly to any other month number.
pub open spec fn civil_days(y: int, m: int, d: int) -> int {
    let my = march_year(y, m);
    365 * my + my / 4 - my / 100 + my / 400 + tdiv(153 * march_month(m) + 2, 5) + d - 1 - 719468
}

/// Whether every intermediate value of [`days_from_civil`] is representable.
pub open spec fn civil_defined(y: int, m: int, d: int) -> bool {
    let my = march_year(y, m);
    let mm = march_month(m);
    let doy = tdiv(153 * mm + 2, 5) + d - 1;
    &&& in_i64(my)
    &&& my < 0 ==> in_i64(my - 399)
    &&& in_i64(mm)
    &&& in_i64(153 * mm)
    &&& in_i64(153 * mm + 2)
    &&& in_i64(tdiv(153 * mm + 2, 5) + d)
    &&& in_i64(doy)
    &&& in_i64((my / 400) * 400)
    &&& in_i64((my / 400) * 146097)
    &&& in_i64((my % 400) * 365 + (my % 400) / 4 - (my % 400) / 100 + doy)
    &&& in_i64(civil_days(y, m, d) + 719468)
    &&& in_i64(civil_days(y, m, d))
}

/// Within a 400-year era the days add up to those of the whole calendar.
proof fn lemma_era(my: int)
    ensures
        (my / 400) * 146097 + (my % 400) * 365 + (my % 400) / 4 - (my % 400) / 100 == 365 * my + my
            / 4 - my / 100 + my / 400,
{
    let e = my / 400;
    let r = my % 400;
    assert(my == 400 * e + r);
    assert(my / 4 == 100 * e + r / 4);
    assert(my / 100 == 4 * e + r / 100);
}

/// Counting in years that start in March agrees with the calendar.
proof fn lemma_civil_is_calendar(y: int, m: int, d: int)
    requires
        1 <= m <= 12,
    ensures
        civil_days(y, m, d) == calendar_days(y, m, d),
{
}

/// Days since 1970-01-01 (proleptic Gregorian).
pub fn days_from_civil(y: i64, m: i64, d: i64) -> (r: i64)
    requires
        civil_defined(y as int, m as int, d as int),
    ensures
        r == civil_days(y as int, m as int, d as int),
        1 <= m <= 12 ==> r == calendar_days(y as int, m as int, d as int),
{
    let my: i64 = if m <= 2 {
        y - 1
    } else {
        y
    };
    let era: i64 = (if my >= 0 {
        my
    } else {
        my - 399
    }) / 400;
    assert(era == (my as int) / 400);
    let yoe: i64 = my - era * 400;
    assert(yoe == (my as int) % 400);
    let mm: i64 = if m > 2 {
        m - 3
    } else {
        m + 9
    };
    let doy: i64 = (153 * mm + 2) / 5 + d - 1;
    let doe: i64 = yoe * 365 + yoe / 4 - yoe / 100 + doy;
    proof {
        lemma_era(my as int);
        if 1 <= m <= 12 {
            lemma_civil_is_calendar(y as int, m as int, d as int);
        }
    }
    era * 146097 + doe - 719468
}

/// Unix seconds of a UTC civil time (leap seconds ignored).
pub open spec fn unix_of(y: int, mo: int, d: int, h: int, mi: int, s: int) -> int {
    civil_days(y, mo, d) * 86400 + h * 3600 + mi * 60 + s
}

/// UTC civil time to Unix seconds (leap seconds ignored).
pub fn civil_to_unix(y: i64, mo: i64, d: i64, h: i64, mi: i64, s: i64) -> (r: i64)
    requires
        civil_defined(y as int, mo as int, d as int),
        in_i64(civil_days(y as int, mo as int, d as int) * 86400),
        in_i64(h * 3600),
        in_i64(civil_days(y as int, mo as int, d as int) * 86400 + h * 3600),
        in_i64(mi * 60),
        in_i64(civil_days(y as int, mo as int, d as int) * 86400 + h * 3600 + mi * 60),
        in_i64(unix_of(y as int, mo as int, d as int, h as int, mi as int, s as int)),
    ensures
        r == unix_of(y as int, mo as int, d as int, h as int, mi as int, s as int),
{
    days_from_civil(y, mo, d) * 86400 + h * 3600 + mi * 60 + s
}

/// The time that a field `hhmmss.sss` spells: the first six bytes before the first `.`, read in
/// pairs, within the ranges of a clock that may show a leap second.
pub open spec fn time_of_field(b: Seq<u8>) -> Option<(u8, u8, u8)> {
    let p = b.take(first_at(b, 0x2e, 0));
    if p.len() < 6 {
        None
    } else {
        match (decimal_pair(p[0], p[1]), decimal_pair(p[2], p[3]), decimal_pair(p[4], p[5])) {
            (Some(h), Some(mi), Some(s)) => if h <= 23 && mi <= 59 && s <= 60 {
                Some((h, mi, s))
            } else {
                None
            },
            _ => None,
        }
    }
}

/// The date that a field `ddmmyy` spells: the first six bytes, read in pairs, in the years 2000 to
/// 2099.
pub open spec fn date_of_field(b: Seq<u8>) -> Option<(u8, u8, u16)> {
    if b.len() < 6 {
        None
    } else {
        match (decimal_pair(b[0], b[1]), decimal_pair(b[2], b[3]), decimal_pair(b[4], b[5])) {
            (Some(d), Some(mo), Some(yy)) => if 1 <= d <= 31 && 1 <= mo <= 12 {
                Some((d, mo, (2000 + yy) as u16))
            } else {
                None
            },
            _ => None,
        }
    }
}

/// Reads a time field from bytes.
fn time_from_bytes(b: &[u8]) -> (r: Option<(u8, u8, u8)>)
    ensures
        r == time_of_field(b@),
{
    let end: usize = find_byte(b, 0x2e, 0);
    if end < 6 {
        return None;
    }
    assert(b@.take(end as int)[5] == b@[5]);
    let h: u8 = parse_decimal_pair(b[0], b[1])?;
    let mi: u8 = parse_decimal_pair(b[2], b[3])?;
    let s: u8 = parse_decimal_pair(b[4], b[5])?;
    if h > 23 || mi > 59 || s > 60 {
        return None;
    }
    Some((h, mi, s))
}

/// Reads a date field from bytes.
fn date_from_bytes(b: &[u8]) -> (r: Option<(u8, u8, u16)>)
    ensures
        r == date_of_field(b@),
{
    if b.len() < 6 {
        return None;
    }
    let d: u8 = parse_decimal_pair(b[0], b[1])?;
    let mo: u8 = parse_decimal_pair(b[2], b[3])?;
    let yy: u8 = parse_decimal_pair(b[4], b[5])?;
    if d < 1 || d > 31 || mo < 1 || mo > 12 {
        return None;
    }
    Some((d, mo, 2000 + yy as u16))
}

/// Extracts (hour, min, sec) from an NMEA time field `hhmmss.sss`. The fractional seconds are
/// dropped.
pub fn parse_hhmmss(field: &str) -> (r: Option<(u8, u8, u8)>)
    ensures
        r == time_of_field(field.spec_bytes()),
{
    time_from_bytes(field.as_bytes())
}

/// Extracts (day, month, year) from an NMEA date field `ddmmyy`. The year assumes 20xx.
pub fn parse_ddmmyy(field: &str) -> (r: Option<(u8, u8, u16)>)
    ensures
        r == date_of_field(field.spec_bytes()),
{
    date_from_bytes(field.as_bytes())
}

/// `((hour, minute, second), (day, month, year))`: what [`parse_rmc_time_date`] returns.
pub type RmcTimeDate = ((u8, u8, u8), (u8, u8, u16));

/// Whether a sentence is an RMC sentence: `$`, two bytes of talker, then `RMC`.
pub open spec fn is_rmc(b: Seq<u8>) -> bool {
    b.len() >= 6 && b[3] == 0x52 && b[4] == 0x4d && b[5] == 0x43
}

/// The time and date of an RMC sentence: its fields 1 and 9.
pub open spec fn rmc_time_date(b: Seq<u8>) -> Option<RmcTimeDate> {
    if !is_rmc(b) {
        None
    } else {
        match (nth_field(b, 0x2c, 1), nth_field(b, 0x2c, 9)) {
            (Some(t), Some(d)) => match (time_of_field(t), date_of_field(d)) {
                (Some(time), Some(date)) => Some((time, date)),
                _ => None,
            },
            _ => None,
        }
    }
}

/// Whether a sentence is an RMC sentence.
pub fn has_rmc_header(sentence: &str) -> (r: bool)
    ensures
        r == is_rmc(sentence.spec_bytes()),
{
    let b = sentence.as_bytes();
    b.len() >= 6 && b[3] == 0x52 && b[4] == 0x4d && b[5] == 0x43
}

/// Extracts `((hour, min, sec), (day, month, year))` from an RMC sentence; `None` for any other
/// sentence or a malformed field. The checksum is not validated, the year is 20xx, and a leap
/// second is accepted. [`crate::external_nmea`] differs in all three.
pub fn parse_rmc_time_date(sentence: &str) -> (r: Option<RmcTimeDate>)
    ensures
        r == rmc_time_date(sentence.spec_bytes()),
{
    if !has_rmc_header(sentence) {
        return None;
    }
    let b = sentence.as_bytes();
    let (t0, t1): (usize, usize) = find_field(b, 0x2c, 1)?;
    let (d0, d1): (usize, usize) = match find_field(b, 0x2c, 9) {
        Some(bounds) => bounds,
        None => {
            return None;
        },
    };
    let time = time_from_bytes(vstd::slice::slice_subrange(b, t0, t1))?;
    let date = date_from_bytes(vstd::slice::slice_subrange(b, d0, d1))?;
    Some((time, date))
}

/// An established sync point: a PPS edge's local time and its UTC second.
#[derive(Debug, Clone, Copy, PartialEq, Eq, Structural)]
pub struct SyncPoint {
    /// Local timer value (us) at which the PPS edge was timestamped.
    pub pps_local_us: u64,
    /// The UTC second (Unix seconds) that this PPS edge points to.
    pub unix_s: i64,
    /// Deviation of the latest PPS interval from 1 s (us).
    pub drift_us: i64,
}

/// How the second that an NMEA time sentence names relates to the PPS edge it follows: this is
/// receiver-dependent, and getting it wrong shifts the whole epoch by one second.
#[derive(Debug, Default)]
pub enum PpsNmeaAssociation {
    /// The sentence names the same second as the edge (most receivers).
    #[default]
    SameSecond,
    /// The sentence names the previous second (the edge is 1 s after the NMEA time).
    NmeaIsPreviousSecond,
    /// The sentence names the next second (the edge is 1 s before the NMEA time).
    NmeaIsNextSecond,
}

impl PpsNmeaAssociation {
    /// What is added to the NMEA second to get the edge's UTC second.
    pub open spec fn offset(self) -> int {
        match self {
            PpsNmeaAssociation::SameSecond => 0,
            PpsNmeaAssociation::NmeaIsPreviousSecond => 1,
            PpsNmeaAssociation::NmeaIsNextSecond => -1,
        }
    }

    fn edge_offset_seconds(&self) -> (r: i64)
        ensures
            r == self.offset(),
    {
        match self {
            PpsNmeaAssociation::SameSecond => 0,
            PpsNmeaAssociation::NmeaIsPreviousSecond => 1,
            PpsNmeaAssociation::NmeaIsNextSecond => -1,
        }
    }
}

/// The mathematical state of a [`PpsTimeSync`].
pub struct SyncState {
    /// The receiver's association.
    pub association: PpsNmeaAssociation,
    /// The last date (year, month, day).
    pub date: Option<(u16, u8, u8)>,
    /// The most recent PPS edge that no UTC second has been paired with (us).
    pub pending: Option<u64>,
    /// The previous PPS edge (us).
    pub last_pps: Option<u64>,
    /// The established epoch: local time (us) and UTC second.
    pub epoch: Option<(u64, int)>,
    /// The latest drift (us).
    pub drift: int,
}

impl SyncState {
    /// The state of a sync that has seen nothing.
    pub open spec fn fresh(association: PpsNmeaAssociation) -> SyncState {
        SyncState {
            association,
            date: None,
            pending: None,
            last_pps: None,
            epoch: None,
            drift: 0,
        }
    }

    /// The drift that an edge shows: its interval less 1 s, with times read as signed.
    pub open spec fn drift_at(self, local_us: u64) -> Option<int> {
        match self.last_pps {
            Some(prev) => Some((local_us as i64) - (prev as i64) - 1_000_000),
            None => None,
        }
    }

    /// The UTC second of the edge that an NMEA time follows.
    pub open spec fn edge_second(self, h: u8, mi: u8, s: u8) -> int {
        let date = self.date->0;
        unix_of(date.0 as int, date.1 as int, date.2 as int, h as int, mi as int, s as int)
            + self.association.offset()
    }
}

/// State machine that disciplines the clock by pairing PPS edges with NMEA time.
#[derive(Debug)]
pub struct PpsTimeSync {
    association: PpsNmeaAssociation,
    last_date: Option<(u16, u8, u8)>,
    pending_pps_us: Option<u64>,
    last_pps_us: Option<u64>,
    epoch: Option<(u64, i64)>,
    last_drift_us: i64,
}

impl View for PpsTimeSync {
    type V = SyncState;

    closed spec fn view(&self) -> SyncState {
        SyncState {
            association: self.association,
            date: self.last_date,
            pending: self.pending_pps_us,
            last_pps: self.last_pps_us,
            epoch: match self.epoch {
                Some((local, unix)) => Some((local, unix as int)),
                None => None,
            },
            drift: self.last_drift_us as int,
        }
    }
}

impl Default for PpsTimeSync {
    fn default() -> (r: Self)
        ensures
            r@ == SyncState::fresh(PpsNmeaAssociation::SameSecond),
    {
        PpsTimeSync::new()
    }
}

impl PpsTimeSync {
    /// Creates a sync for receivers whose sentences name the edge's own second.
    pub fn new() -> (r: Self)
        ensures
            r@ == SyncState::fresh(PpsNmeaAssociation::SameSecond),
    {
        PpsTimeSync::with_association(PpsNmeaAssociation::SameSecond)
    }

    /// Creates a sync with a given association.
    pub fn with_association(association: PpsNmeaAssociation) -> (r: Self)
        ensures
            r@ == SyncState::fresh(association),
    {
        PpsTimeSync {
            association,
            last_date: None,
            pending_pps_us: None,
            last_pps_us: None,
            epoch: None,
            last_drift_us: 0,
        }
    }

    /// Records a PPS rising edge at local time `local_us`. If there was a previous edge, returns
    /// the drift (interval less 1 s, us).
    pub fn on_pps(&mut self, local_us: u64) -> (r: Option<i64>)
        requires
            old(self)@.last_pps is Some ==> {
                &&& in_i64((local_us as i64) - (old(self)@.last_pps->0 as i64))
                &&& in_i64(old(self)@.drift_at(local_us)->0)
            },
        ensures
            r is Some <==> old(self)@.last_pps is Some,
            r is Some ==> r->0 == old(self)@.drift_at(local_us)->0,
            final(self)@ == (SyncState {
                pending: Some(local_us),
                last_pps: Some(local_us),
                drift: match old(self)@.drift_at(local_us) {
                    Some(d) => d,
                    None => old(self)@.drift,
                },
                ..old(self)@
            }),
    {
        let drift: Option<i64> = match self.last_pps_us {
            Some(prev) => Some(local_us as i64 - prev as i64 - 1_000_000),
            None => None,
        };
        if let Some(d) = drift {
            self.last_drift_us = d;
        }
        self.last_pps_us = Some(local_us);
        self.pending_pps_us = Some(local_us);
        drift
    }

    /// Updates the date.
    pub fn set_date(&mut self, year: u16, month: u8, day: u8)
        ensures
            final(self)@ == (SyncState { date: Some((year, month, day)), ..old(self)@ }),
    {
        self.last_date = Some((year, month, day));
    }

    /// Takes an NMEA time, pairs it with the most recent PPS edge, and establishes a sync point.
    /// `None` if the date is unknown or no PPS edge is waiting: an edge is paired once.
    pub fn on_time(&mut self, h: u8, mi: u8, s: u8) -> (r: Option<SyncPoint>)
        ensures
            r is Some <==> old(self)@.date is Some && old(self)@.pending is Some,
            r is Some ==> {
                &&& r->0.pps_local_us == old(self)@.pending->0
                &&& r->0.unix_s == old(self)@.edge_second(h, mi, s)
                &&& r->0.drift_us == old(self)@.drift
                &&& final(self)@ == (SyncState {
                    pending: None,
                    epoch: Some((old(self)@.pending->0, old(self)@.edge_second(h, mi, s))),
                    ..old(self)@
                })
            },
            r is None ==> final(self)@ == old(self)@,
    {
        let (y, mo, d): (u16, u8, u8) = match self.last_date {
            Some(date) => date,
            None => {
                return None;
            },
        };
        let pps: u64 = match self.pending_pps_us {
            Some(p) => p,
            None => {
                return None;
            },
        };
        let unix_s: i64 = civil_to_unix(
            y as i64,
            mo as i64,
            d as i64,
            h as i64,
            mi as i64,
            s as i64,
        ) + self.association.edge_offset_seconds();
        self.epoch = Some((pps, unix_s));
        self.pending_pps_us = None;
        Some(SyncPoint { pps_local_us: pps, unix_s, drift_us: self.last_drift_us })
    }

    /// Whether sync has been established.
    pub fn is_locked(&self) -> (b: bool)
        ensures
            b == (self@.epoch is Some),
    {
        self.epoch.is_some()
    }

    /// Disciplined UTC (Unix us) for a local timer value; `None` if not synced.
    pub fn now_unix_micros(&self, local_us: u64) -> (r: Option<i64>)
        requires
            self@.epoch is Some ==> {
                let (el, eu) = self@.epoch->0;
                &&& in_i64(eu * 1_000_000)
                &&& in_i64((local_us as i64) - (el as i64))
                &&& in_i64(eu * 1_000_000 + ((local_us as i64) - (el as i64)))
            },
        ensures
            r is Some <==> self@.epoch is Some,
            r is Some ==> ({
                let (el, eu) = self@.epoch->0;
                r->0 == eu * 1_000_000 + ((local_us as i64) - (el as i64))
            }),
    {
        match self.epoch {
            Some((el, eu)) => Some(eu * 1_000_000 + (local_us as i64 - el as i64)),
            None => None,
        }
    }
}

/// Each day follows the one before it: within a month, from one month to the next and from one
/// year to the next.
pub proof fn law_days_follow_each_other(y: int, m: int, d: int)
    requires
        1 <= m <= 12,
        1 <= d <= days_in_month(y, m),
    ensures
        d < days_in_month(y, m) ==> calendar_days(y, m, d + 1) == calendar_days(y, m, d) + 1,
        d == days_in_month(y, m) && m < 12 ==> calendar_days(y, m + 1, 1) == calendar_days(y, m, d)
            + 1,
        d == days_in_month(y, m) && m == 12 ==> calendar_days(y + 1, 1, 1) == calendar_days(y, m, d)
            + 1,
{
    assert(m == 12 ==> leap_years_before(y + 1) == leap_years_before(y) + (if is_leap(y) {
        1int
    } else {
        0
    }));
}

/// Midnight is one second after 23:59:59 of the day before, whatever the day.
pub proof fn law_seconds_roll_over(y: int, m: int, d: int, y2: int, m2: int, d2: int)
    requires
        civil_days(y2, m2, d2) == civil_days(y, m, d) + 1,
    ensures
        unix_of(y2, m2, d2, 0, 0, 0) == unix_of(y, m, d, 23, 59, 59) + 1,
{
}

/// The association shifts the epoch by its offset and does not accumulate: two pairings under
/// the same association are as far apart as their NMEA times.
pub proof fn law_association_does_not_accumulate(
    s1: SyncState,
    s2: SyncState,
    h1: u8,
    mi1: u8,
    sec1: u8,
    h2: u8,
    mi2: u8,
    sec2: u8,
)
    requires
        s1.association == s2.association,
        s1.date == s2.date,
    ensures
        s2.edge_second(h2, mi2, sec2) - s1.edge_second(h1, mi1, sec1) == (h2 - h1) * 3600 + (mi2
            - mi1) * 60 + (sec2 - sec1),
        -1 <= s1.association.offset() <= 1,
{
}

/// The months have their lengths, and February its leap day in every fourth year but the centuries
/// that 400 does not divide.
pub proof fn law_months_have_their_lengths(y: int, m: int)
    requires
        1 <= m <= 12,
    ensures
        ({
            let leap = y % 4 == 0 && (y % 100 != 0 || y % 400 == 0);
            let next = if m < 12 { calendar_days(y, m + 1, 1) } else {
                calendar_days(y + 1, 1, 1)
            };
            let days = next - calendar_days(y, m, 1);
            &&& m == 2 && leap ==> days == 29
            &&& m == 2 && !leap ==> days == 28
            &&& m == 4 || m == 6 || m == 9 || m == 11 ==> days == 30
            &&& m == 1 || m == 3 || m == 5 || m == 7 || m == 8 || m == 10 || m == 12 ==> days == 31
            &&& days == days_in_month(y, m)
        }),
{
    law_days_follow_each_other(y, m, days_in_month(y, m));
}

/// Days are counted from the first of January 1970, one by one, and a year has 365 of them or 366.
pub proof fn law_days_count_from_1970(y: int, m: int, d: int, more: int)
    requires
        1 <= m <= 12,
    ensures
        calendar_days(1970, 1, 1) == 0,
        calendar_days(y, m, d + more) == calendar_days(y, m, d) + more,
        calendar_days(y + 1, 1, d) - calendar_days(y, 1, d) == (if y % 4 == 0 && (y % 100 != 0 || y
            % 400 == 0) {
            366int
        } else {
            365
        }),
        civil_days(y, m, d) == calendar_days(y, m, d),
{
    lemma_civil_is_calendar(y, m, d);
}

/// The calendar repeats after 400 years, which have 146097 days.
pub proof fn law_calendar_repeats_after_400_years(y: int, m: int, d: int)
    ensures
        calendar_days(y + 400, m, d) == calendar_days(y, m, d) + 146097,
{
    let q = (y - 1) / 400;
    let r = (y - 1) % 400;
    assert(y - 1 == 400 * q + r);
    assert((y - 1) / 4 == 100 * q + r / 4 && (y + 399) / 4 == 100 * (q + 1) + r / 4);
    assert((y - 1) / 100 == 4 * q + r / 100 && (y + 399) / 100 == 4 * (q + 1) + r / 100);
    assert((y + 399) / 400 == q + 1);
    assert((y + 400) % 4 == y % 4);
    assert((y + 400) % 100 == y % 100);
    assert((y + 400) % 400 == y % 400);
}

/// A minute is 60 seconds, an hour 60 minutes, a day 24 hours; and the first second of 1970 is 0.
pub proof fn law_clock_units_nest(y: int, mo: int, d: int, h: int, mi: int, s: int)
    requires
        1 <= mo <= 12,
    ensures
        unix_of(1970, 1, 1, 0, 0, 0) == 0,
        unix_of(y, mo, d, h, mi, s + 1) == unix_of(y, mo, d, h, mi, s) + 1,
        unix_of(y, mo, d, h, mi + 1, s) == unix_of(y, mo, d, h, mi, s + 60),
        unix_of(y, mo, d, h + 1, mi, s) == unix_of(y, mo, d, h, mi + 60, s),
        unix_of(y, mo, d + 1, h, mi, s) == unix_of(y, mo, d, h + 24, mi, s),
{
    lemma_civil_is_calendar(1970, 1, 1);
}

/// An edge's second is the sentence's own, the one after it or the one before it, as the receiver's
/// association says.
pub proof fn law_association_names_the_second(st: SyncState, h: u8, mi: u8, s: u8)
    requires
        st.date is Some,
    ensures
        ({
            let (y, mo, d) = st.date->0;
            let named = unix_of(y as int, mo as int, d as int, h as int, mi as int, s as int);
            match st.association {
                PpsNmeaAssociation::SameSecond => st.edge_second(h, mi, s) == named,
                PpsNmeaAssociation::NmeaIsPreviousSecond => st.edge_second(h, mi, s) == named + 1,
                PpsNmeaAssociation::NmeaIsNextSecond => st.edge_second(h, mi, s) == named - 1,
            }
        }),
{
}

/// The drift of an edge is how much longer than a second its interval was.
pub proof fn law_drift_is_the_excess_over_a_second(st: SyncState, prev: u64, local_us: u64)
    requires
        st.last_pps == Some(prev),
        prev <= i64::MAX,
        local_us <= i64::MAX,
    ensures
        st.drift_at(local_us) == Some(local_us - prev - 1_000_000),
{
}

/// A time field reads back: six digits with nothing but a dot after them spell the hour, the minute
/// and the second, if there is such a time; what is read is always one, and was spelled.
pub proof fn law_time_field_reads_back(b: Seq<u8>, h: u8, mi: u8, s: u8)
    requires
        b.len() >= 6,
        forall|i: int| 0 <= i < 6 ==> 48 <= #[trigger] b[i] <= 57,
        h == 10 * (b[0] - 48) + (b[1] - 48),
        mi == 10 * (b[2] - 48) + (b[3] - 48),
        s == 10 * (b[4] - 48) + (b[5] - 48),
    ensures
        time_of_field(b) == (if h <= 23 && mi <= 59 && s <= 60 { Some((h, mi, s)) } else { None }),
{
    assert(b[0] >= 48 && b[1] >= 48 && b[2] >= 48 && b[3] >= 48 && b[4] >= 48 && b[5] >= 48);
    crate::text::lemma_first_at(b, 0x2e, 0);
    let p = b.take(first_at(b, 0x2e, 0));
    assert(p.len() >= 6);
    assert(p[0] == b[0] && p[1] == b[1] && p[2] == b[2] && p[3] == b[3] && p[4] == b[4] && p[5]
        == b[5]);
}

/// A date field reads back: six digits spell the day, the month and the year of this century, if
/// there is such a day and month.
pub proof fn law_date_field_reads_back(b: Seq<u8>, d: u8, mo: u8, y: u16)
    requires
        b.len() >= 6,
        forall|i: int| 0 <= i < 6 ==> 48 <= #[trigger] b[i] <= 57,
        d == 10 * (b[0] - 48) + (b[1] - 48),
        mo == 10 * (b[2] - 48) + (b[3] - 48),
        y == 2000 + 10 * (b[4] - 48) + (b[5] - 48),
    ensures
        date_of_field(b) == (if 1 <= d <= 31 && 1 <= mo <= 12 { Some((d, mo, y)) } else { None }),
{
    assert(b[0] >= 48 && b[1] >= 48 && b[2] >= 48 && b[3] >= 48 && b[4] >= 48 && b[5] >= 48);
}

/// What is read from a time or date field is within the ranges of a clock and a calendar, and a
/// field that is too short, or that a dot cuts short, or with another character in its place, is
/// refused.
pub proof fn law_malformed_fields_are_refused(b: Seq<u8>, i: int)
    requires
        b.len() < 6 || (0 <= i < 6 && b[i] != 43 && !(48 <= b[i] <= 57)),
    ensures
        time_of_field(b) is None,
        date_of_field(b) is None,
{
    crate::text::lemma_first_at(b, 0x2e, 0);
    let p = b.take(first_at(b, 0x2e, 0));
    if b.len() >= 6 && p.len() >= 6 {
        assert(p[i] == b[i]);
        assert(i == 0 || i == 1 || i == 2 || i == 3 || i == 4 || i == 5);
    }
}

/// An RMC sentence gives the time of its second field and the date of its tenth, where both can be
/// read; any other sentence gives nothing.
pub proof fn law_rmc_gives_time_and_date(
    b: Seq<u8>,
    t: Seq<u8>,
    d: Seq<u8>,
    time: (u8, u8, u8),
    date: (u8, u8, u16),
)
    ensures
        rmc_time_date(b) is Some ==> b.len() >= 6 && b[3] == 82 && b[4] == 77 && b[5] == 67,
        b.len() >= 6 && b[3] == 82 && b[4] == 77 && b[5] == 67 && nth_field(b, 44, 1) == Some(t)
            && nth_field(b, 44, 9) == Some(d) && time_of_field(t) == Some(time) && date_of_field(d)
            == Some(date) ==> rmc_time_date(b) == Some((time, date)),
        nth_field(b, 44, 1) is None || nth_field(b, 44, 9) is None ==> rmc_time_date(b) is None,
        nth_field(b, 44, 1) == Some(t) && time_of_field(t) is None ==> rmc_time_date(b) is None,
        nth_field(b, 44, 9) == Some(d) && date_of_field(d) is None ==> rmc_time_date(b) is None,
{
}

/// A disciplined time runs on from its epoch: at the epoch's edge it is the epoch's second, and from
/// there on it grows with the local timer.
pub proof fn law_time_runs_on_from_the_epoch(
    s: &PpsTimeSync,
    local: u64,
    second: int,
    ahead: u64,
    r: Option<i64>,
)
    requires
        s@.epoch == Some((local, second)),
        local + ahead <= i64::MAX,
        call_ensures(PpsTimeSync::now_unix_micros, (s, (local + ahead) as u64), r),
    ensures
        r is Some && r->0 == second * 1_000_000 + ahead,
{
}

/// A field is read in pairs, up to a dot: each pair is a number or the field is refused, and so is a
/// field that a dot cuts short of three pairs.
pub proof fn law_fields_are_read_in_pairs(b: Seq<u8>)
    requires
        b.len() >= 6,
    ensures
        ({
            let dotted = b[0] == 46 || b[1] == 46 || b[2] == 46 || b[3] == 46 || b[4] == 46 || b[5]
                == 46;
            let p = decimal_pair(b[0], b[1]);
            let q = decimal_pair(b[2], b[3]);
            let r = decimal_pair(b[4], b[5]);
            &&& dotted || p is None || q is None || r is None ==> time_of_field(b) is None
            &&& p is None || q is None || r is None ==> date_of_field(b) is None
            &&& p is Some && q is Some && r is Some ==> time_of_field(b) == (if p->0 <= 23 && q->0
                <= 59 && r->0 <= 60 {
                Some((p->0, q->0, r->0))
            } else {
                None
            })
            &&& p is Some && q is Some && r is Some ==> date_of_field(b) == (if 1 <= p->0 <= 31 && 1
                <= q->0 <= 12 {
                Some((p->0, q->0, (2000 + r->0) as u16))
            } else {
                None
            })
        }),
{
    crate::text::lemma_first_at(b, 0x2e, 0);
    let end = first_at(b, 0x2e, 0);
    let p = b.take(end);
    if end >= 6 {
        assert(b[0] != 46 && b[1] != 46 && b[2] != 46 && b[3] != 46 && b[4] != 46 && b[5] != 46);
        assert(p[0] == b[0] && p[1] == b[1] && p[2] == b[2] && p[3] == b[3] && p[4] == b[4] && p[5]
            == b[5]);
    } else {
        assert(b[end] == 46);
        assert(end == 0 || end == 1 || end == 2 || end == 3 || end == 4 || end == 5);
    }
}

/// A fresh sync knows no date, no edge and no epoch.
pub proof fn law_fresh_sync_knows_nothing(association: PpsNmeaAssociation, local_us: u64)
    ensures
        ({
            let s = SyncState::fresh(association);
            &&& s.association == association
            &&& s.date is None && s.pending is None && s.last_pps is None && s.epoch is None
            &&& s.drift == 0 && s.drift_at(local_us) is None
        }),
{
}

} // verus!
