//! Time zones, instants and calendar times, and the calls into `chrono` and
//! `chrono_tz` that create and render them.
//!
//! Every value here is made by one of the functions of this module, which keep
//! the `chrono` value and the plain numbers it stands for side by side. The
//! contracts speak of the plain numbers (the views); what `chrono` computes from
//! them is given a name below and is not proved.
use chrono::{Datelike, TimeZone, Timelike};
use vstd::prelude::*;

verus! {

#[verifier::external_type_specification]
#[verifier::external_body]
pub struct ExTz(chrono_tz::Tz);

#[verifier::external_type_specification]
#[verifier::external_body]
pub struct ExNaiveDateTime(chrono::NaiveDateTime);

#[verifier::external_type_specification]
#[verifier::external_body]
pub struct ExNaiveDate(chrono::NaiveDate);

/// An instant as whole seconds since 1970-01-01T00:00:00Z and the nanoseconds past them.
pub type InstantParts = (i64, u32);

/// A calendar date and wall-clock time: year, month, day, hour, minute, second, nanosecond.
pub type CivilParts = (i32, u32, u32, u32, u32, u32, u32);

/// Whether `chrono_tz` knows a time zone by this exact name (`Tz::from_str`).
pub uninterp spec fn tz_name_known(name: Seq<char>) -> bool;

/// The instant that `chrono::DateTime::parse_from_rfc3339` reads from a text, if it reads one.
pub uninterp spec fn rfc3339_instant(text: Seq<char>) -> Option<InstantParts>;

/// What `chrono::NaiveDateTime::parse_from_str` reads from a text with a format.
pub uninterp spec fn naive_datetime_parse(text: Seq<char>, format: Seq<char>) -> Option<CivilParts>;

/// What `chrono::NaiveDate::parse_from_str` reads from a text with a format: year, month, day.
pub uninterp spec fn naive_date_parse(text: Seq<char>, format: Seq<char>) -> Option<(i32, u32, u32)>;

/// The instant at which the named zone shows the given wall-clock time, when there is exactly
/// one (`TimeZone::from_local_datetime` followed by `single`).
pub uninterp spec fn local_instant(civil: CivilParts, zone: Seq<char>) -> Option<InstantParts>;

/// `DateTime::to_rfc3339` of an instant seen in the named zone.
pub uninterp spec fn rfc3339_in_zone_text(at: InstantParts, zone: Seq<char>) -> Seq<char>;

/// `DateTime::<Utc>::to_rfc3339` of an instant.
pub uninterp spec fn rfc3339_utc_text(at: InstantParts) -> Seq<char>;

/// `DateTime::format(format).to_string()` of an instant seen in the named zone.
pub uninterp spec fn formatted_in_zone_text(at: InstantParts, zone: Seq<char>, format: Seq<char>) -> Seq<char>;

/// The zone names this library itself asks for: UTC, and the seven zones of the world
/// clock. `chrono_tz`'s table holds each of them.
pub open spec fn builtin_zone_name(name: Seq<char>) -> bool {
    ||| name == "UTC"@
    ||| name == "America/New_York"@
    ||| name == "America/Los_Angeles"@
    ||| name == "Europe/London"@
    ||| name == "Europe/Paris"@
    ||| name == "Asia/Tokyo"@
    ||| name == "Australia/Sydney"@
    ||| name == "Asia/Dubai"@
}

/// Whether an instant lies in the UTC years 0000 to 9999 with fewer nanoseconds than a
/// second: the instants whose RFC 3339 text with a zero offset `chrono` writes with a
/// four-digit year and reads back exactly.
pub open spec fn rfc3339_round_trips(at: InstantParts) -> bool {
    &&& -62167219200 <= at.0 <= 253402300799
    &&& at.1 < 1_000_000_000
}

/// The one layout this library renders wall-clock times with.
pub const WALL_CLOCK_FORMAT: &'static str = "%Y-%m-%d %H:%M:%S %Z";

/// A time zone of the IANA database, held by the name it was found by.
///
/// A `Zone` keeps no `chrono_tz` value of its own: whatever renders an instant in it
/// (`in_zone`, `rfc3339_in`, `format_in`) looks the zone up by this name with
/// `Tz::from_str`, so a zone reached through the cache, or copied, shows every instant
/// exactly as the zone looked up afresh by the same name does. Its name is always one
/// that `chrono_tz` knows.
#[derive(Debug)]
pub struct Zone {
    name: String,
}

impl View for Zone {
    type V = Seq<char>;

    closed spec fn view(&self) -> Seq<char> {
        self.name@
    }
}

impl Zone {
    /// Every zone is named by a name that `chrono_tz` knows.
    #[verifier::type_invariant]
    closed spec fn named_known(&self) -> bool {
        tz_name_known(self.name@)
    }
}

/// An instant of time, kept as the date and time it is in UTC, and whether it was read
/// from the system clock.
#[derive(Debug)]
pub struct Moment {
    utc: chrono::NaiveDateTime,
    secs: i64,
    nanos: u32,
    clock: bool,
}

impl View for Moment {
    type V = InstantParts;

    closed spec fn view(&self) -> InstantParts {
        (self.secs, self.nanos)
    }
}

impl Moment {
    /// Whether this instant is a reading of the system clock, taken by `now`; an
    /// instant parsed from a text or computed from a wall-clock time is not.
    pub closed spec fn is_clock_reading(&self) -> bool {
        self.clock
    }
}

/// A calendar date with a wall-clock time, in no particular zone.
pub struct Civil {
    naive: chrono::NaiveDateTime,
    parts: CivilParts,
}

impl View for Civil {
    type V = CivilParts;

    closed spec fn view(&self) -> CivilParts {
        self.parts
    }
}

/// A calendar date, in no particular zone.
pub struct CivilDate {
    date: chrono::NaiveDate,
    parts: (i32, u32, u32),
}

impl View for CivilDate {
    type V = (i32, u32, u32);

    closed spec fn view(&self) -> (i32, u32, u32) {
        self.parts
    }
}

/// Looks a time zone up by name with `chrono_tz::Tz::from_str`; claims that it succeeds
/// exactly for the names that `tz_name_known` holds of, and for the names of
/// `builtin_zone_name`, which its table lists.
#[verifier::external_body]
fn lookup_tz(name: &str) -> (r: Option<chrono_tz::Tz>)
    ensures
        r.is_some() == tz_name_known(name@),
        builtin_zone_name(name@) ==> r.is_some(),
{
    name.parse::<chrono_tz::Tz>().ok()
}

/// The current instant, from `chrono::Utc::now`. Which instant the clock gives is not
/// claimed, only that the result is a reading of the clock (`is_clock_reading`), at or
/// after 1970-01-01T00:00:00Z (`Utc::now` takes `SystemTime::now().duration_since`
/// `(UNIX_EPOCH)`, which it would fail on, and panic, before then), with fewer
/// nanoseconds than a second.
#[verifier::external_body]
pub fn now() -> (r: Moment)
    ensures
        r.is_clock_reading(),
        r@.0 >= 0,
        r@.1 < 1_000_000_000,
{
    let at = chrono::Utc::now();
    Moment { utc: at.naive_utc(), secs: at.timestamp(), nanos: at.timestamp_subsec_nanos(), clock: true }
}

/// Reads an RFC 3339 date-time with `chrono::DateTime::parse_from_rfc3339`; claims that the
/// instant read is the one that `rfc3339_instant` names.
#[verifier::external_body]
pub fn parse_rfc3339(text: &str) -> (r: Option<Moment>)
    ensures
        r.is_some() == rfc3339_instant(text@).is_some(),
        r matches Some(m) ==> rfc3339_instant(text@) == Some(m@),
{
    match chrono::DateTime::parse_from_rfc3339(text) {
        Ok(dt) => {
            let at = dt.with_timezone(&chrono::Utc);
            Some(Moment { utc: at.naive_utc(), secs: at.timestamp(), nanos: at.timestamp_subsec_nanos(), clock: false })
        },
        Err(_) => None,
    }
}

/// Reads a date and time with `chrono::NaiveDateTime::parse_from_str`; claims that what is
/// read is what `naive_datetime_parse` names.
#[verifier::external_body]
pub fn parse_civil(text: &str, format: &str) -> (r: Option<Civil>)
    ensures
        r.is_some() == naive_datetime_parse(text@, format@).is_some(),
        r matches Some(c) ==> naive_datetime_parse(text@, format@) == Some(c@),
{
    match chrono::NaiveDateTime::parse_from_str(text, format) {
        Ok(n) => Some(Civil {
            naive: n,
            parts: (n.year(), n.month(), n.day(), n.hour(), n.minute(), n.second(), n.nanosecond()),
        }),
        Err(_) => None,
    }
}

/// Reads a date with `chrono::NaiveDate::parse_from_str`; claims that what is read is what
/// `naive_date_parse` names.
#[verifier::external_body]
pub fn parse_civil_date(text: &str, format: &str) -> (r: Option<CivilDate>)
    ensures
        r.is_some() == naive_date_parse(text@, format@).is_some(),
        r matches Some(d) ==> naive_date_parse(text@, format@) == Some(d@),
{
    match chrono::NaiveDate::parse_from_str(text, format) {
        Ok(d) => Some(CivilDate { date: d, parts: (d.year(), d.month(), d.day()) }),
        Err(_) => None,
    }
}

impl CivilDate {
    /// Midnight at the start of this date, from `chrono::NaiveDate::and_hms_opt(0, 0, 0)`.
    /// Its documentation has it fail only for an invalid hour, minute or second, and keep
    /// the date; that is what is claimed.
    #[verifier::external_body]
    pub fn at_midnight(&self) -> (r: Option<Civil>)
        ensures
            r.is_some(),
            r.unwrap()@ == (self@.0, self@.1, self@.2, 0u32, 0u32, 0u32, 0u32),
    {
        match self.date.and_hms_opt(0, 0, 0) {
            Some(n) => Some(Civil { naive: n, parts: (self.parts.0, self.parts.1, self.parts.2, 0, 0, 0, 0) }),
            None => None,
        }
    }
}

impl Civil {
    /// The instant at which `zone` shows this wall-clock time, from
    /// `TimeZone::from_local_datetime(..).single()`; `None` in a gap or a fold of the zone's
    /// clock. Claims that the outcome is the one that `local_instant` names.
    /// The zone is found by its name with `Tz::from_str`; every `Zone`'s name is known
    /// (its type invariant), so that lookup succeeds and its `Err` arm is never taken.
    #[verifier::external_body]
    pub fn in_zone(&self, zone: &Zone) -> (r: Option<Moment>)
        ensures
            r.is_some() == local_instant(self@, zone@).is_some(),
            r matches Some(m) ==> local_instant(self@, zone@) == Some(m@),
    {
        let tz = match zone.name.parse::<chrono_tz::Tz>() {
            Ok(tz) => tz,
            Err(_) => return None,
        };
        match tz.from_local_datetime(&self.naive).single() {
            Some(dt) => {
                let at = dt.with_timezone(&chrono::Utc);
                Some(Moment { utc: at.naive_utc(), secs: at.timestamp(), nanos: at.timestamp_subsec_nanos(), clock: false })
            },
            None => None,
        }
    }
}

impl Moment {
    /// `to_rfc3339` of this instant as seen in `zone` (after `with_timezone`); claims the text
    /// that `rfc3339_in_zone_text` names. In the zone `UTC`, whose offset is zero,
    /// `write_rfc3339` writes a four-digit year, the seconds' fraction in full and
    /// `+00:00`, which `parse_from_rfc3339` reads back as the same instant; that is claimed
    /// for the instants of `rfc3339_round_trips`. Zones whose offset has seconds (local
    /// mean time in early years) are written rounded to the minute, so nothing is claimed
    /// of other zones.
    /// The zone is found by its name with `Tz::from_str`; every `Zone`'s name is known
    /// (its type invariant), so that lookup succeeds and its `Err` arm is never taken.
    #[verifier::external_body]
    pub fn rfc3339_in(&self, zone: &Zone) -> (r: String)
        ensures
            r@ == rfc3339_in_zone_text(self@, zone@),
            zone@ == "UTC"@ && rfc3339_round_trips(self@) ==> rfc3339_instant(r@) == Some(self@),
    {
        match zone.name.parse::<chrono_tz::Tz>() {
            Ok(tz) => self.utc.and_utc().with_timezone(&tz).to_rfc3339(),
            Err(_) => String::new(),
        }
    }

    /// `to_rfc3339` of this instant in UTC; claims the text that `rfc3339_utc_text` names,
    /// and that `parse_from_rfc3339` reads it back as this instant when the instant is
    /// one of `rfc3339_round_trips`.
    #[verifier::external_body]
    pub fn rfc3339_utc(&self) -> (r: String)
        ensures
            r@ == rfc3339_utc_text(self@),
            rfc3339_round_trips(self@) ==> rfc3339_instant(r@) == Some(self@),
    {
        self.utc.and_utc().to_rfc3339()
    }

    /// This instant seen in `zone` and laid out with `format` (`DateTime::format`, then
    /// `to_string`); claims the text that `formatted_in_zone_text` names. The layout is held
    /// to the one this library uses, which holds only specifiers that `chrono` knows, so the
    /// rendering does not fail.
    /// The zone is found by its name with `Tz::from_str`; every `Zone`'s name is known
    /// (its type invariant), so that lookup succeeds and its `Err` arm is never taken.
    #[verifier::external_body]
    pub fn format_in(&self, zone: &Zone, format: &str) -> (r: String)
        requires
            format@ == WALL_CLOCK_FORMAT@,
        ensures
            r@ == formatted_in_zone_text(self@, zone@, format@),
    {
        match zone.name.parse::<chrono_tz::Tz>() {
            Ok(tz) => self.utc.and_utc().with_timezone(&tz).format(format).to_string(),
            Err(_) => String::new(),
        }
    }

    /// Whole seconds since 1970-01-01T00:00:00Z.
    pub fn unix_seconds(&self) -> (r: i64)
        ensures
            r == self@.0,
    {
        self.secs
    }
}

impl Zone {
    /// The zone that `chrono_tz` knows by exactly this name, if there is one.
    pub fn parse(name: &str) -> (r: Option<Zone>)
        ensures
            r.is_some() == tz_name_known(name@),
            builtin_zone_name(name@) ==> r.is_some(),
            r matches Some(z) ==> z@ == name@,
    {
        match lookup_tz(name) {
            Some(_) => Some(Zone { name: String::from_str(name) }),
            None => None,
        }
    }

    /// The name this zone was found by.
    pub fn name(&self) -> (r: &str)
        ensures
            r@ == self@,
    {
        self.name.as_str()
    }

    /// A second handle on the same zone.
    pub fn copy(&self) -> (r: Zone)
        ensures
            r@ == self@,
    {
        proof {
            use_type_invariant(self);
        }
        Zone { name: self.name.clone() }
    }
}

} // verus!
