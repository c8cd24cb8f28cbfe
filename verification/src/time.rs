use vstd::prelude::*;

verus! {

/// Whether chrono can represent the instant `secs` seconds and `nanos`
/// nanoseconds after the Unix epoch: its day lies between January 1 of the
/// year -262143 and December 31 of 262142, and the nanoseconds are under one
/// second, or under two when the instant is the last second of a minute (a
/// leap second).
pub open spec fn utc_timestamp_valid(secs: i64, nanos: u32) -> bool {
    &&& -8_334_601_228_800 <= secs <= 8_210_266_876_799
    &&& nanos < 2_000_000_000
    &&& (nanos >= 1_000_000_000 ==> secs % 60 == 59)
}

/// The instant (seconds since the Unix epoch, sub-second nanoseconds) that
/// `chrono::DateTime::parse_from_rfc3339` reads from a text, if it reads one.
pub uninterp spec fn rfc3339_instant(text: Seq<char>) -> Option<(i64, u32)>;

/// The text that `chrono::DateTime::<Utc>::to_rfc3339` writes for an instant.
pub uninterp spec fn rfc3339_text(secs: i64, nanos: u32) -> Seq<char>;

/// Whether an instant lies in the years 0000 to 9999, which RFC 3339 text
/// writes with four digits: from 0000-01-01T00:00:00Z to the last nanosecond
/// of 9999-12-31.
pub open spec fn four_digit_year(t: (i64, u32)) -> bool {
    -62_167_219_200 <= t.0 <= 253_402_300_799
}

/// An instant in UTC, as chrono's `DateTime<Utc>` holds it: seconds since the
/// Unix epoch and the nanoseconds past that second. Only instants that chrono
/// can represent are ever built. Each instant also records whether it is a
/// reading of the system clock, as opposed to one given or parsed.
#[derive(Clone, Copy, Debug)]
pub struct UtcTime {
    secs: i64,
    nanos: u32,
    from_clock: bool,
}

impl View for UtcTime {
    type V = (i64, u32);

    closed spec fn view(&self) -> (i64, u32) {
        (self.secs, self.nanos)
    }
}

impl UtcTime {
    #[verifier::type_invariant]
    spec fn representable(self) -> bool {
        utc_timestamp_valid(self.secs, self.nanos)
    }

    /// Whether this instant is what the system clock read (`UtcTime::now`),
    /// rather than an instant given, parsed or fixed.
    pub closed spec fn is_clock_reading(self) -> bool {
        self.from_clock
    }

    /// Seconds since the Unix epoch.
    pub fn timestamp(&self) -> (res: i64)
        ensures
            res == self@.0,
    {
        self.secs
    }

    /// Nanoseconds past the second.
    pub fn subsec_nanos(&self) -> (res: u32)
        ensures
            res == self@.1,
    {
        self.nanos
    }

    /// Every instant that exists is one that chrono can represent.
    pub fn is_representable(&self) -> (res: bool)
        ensures
            res,
            utc_timestamp_valid(self@.0, self@.1),
    {
        proof {
            use_type_invariant(self);
        }
        true
    }

    /// The instant at `secs` seconds and `nanos` nanoseconds past the Unix
    /// epoch, if chrono can represent it.
    pub fn from_timestamp(secs: i64, nanos: u32) -> (res: Option<UtcTime>)
        ensures
            res is Some <==> utc_timestamp_valid(secs, nanos),
            res matches Some(t) ==> t@ == (secs, nanos) && !t.is_clock_reading(),
    {
        chrono_from_timestamp(secs, nanos)
    }

    /// The instant written by `text` in RFC 3339 form, converted to UTC.
    pub fn parse_rfc3339(text: &str) -> (res: Option<UtcTime>)
        ensures
            res is Some <==> rfc3339_instant(text@) is Some,
            res matches Some(t) ==> rfc3339_instant(text@) == Some(t@) && !t.is_clock_reading(),
    {
        chrono_parse_rfc3339(text)
    }

    /// The RFC 3339 text of this instant; for an instant of a four-digit
    /// year, `parse_rfc3339` reads the same instant back from it.
    pub fn to_rfc3339(&self) -> (res: String)
        ensures
            res@ == rfc3339_text(self@.0, self@.1),
            four_digit_year(self@) ==> rfc3339_instant(res@) == Some(self@),
    {
        proof {
            use_type_invariant(self);
        }
        chrono_to_rfc3339(self.secs, self.nanos)
    }

    /// The current time: a reading of the system clock.
    pub fn now() -> (res: UtcTime)
        ensures
            utc_timestamp_valid(res@.0, res@.1),
            res.is_clock_reading(),
    {
        chrono_now()
    }

    /// The default instant, the Unix epoch.
    pub fn epoch() -> (res: UtcTime)
        ensures
            res@ == (0i64, 0u32),
            !res.is_clock_reading(),
    {
        chrono_epoch()
    }
}

/// `chrono::DateTime::<Utc>::from_timestamp`: a date-time exactly when the
/// day is in `NaiveDate`'s range and the nanoseconds are valid for the second
/// (`NaiveTime::from_num_seconds_from_midnight_opt`), and it reads back the
/// same seconds and nanoseconds (chrono documents that the two round-trip).
#[verifier::external_body]
fn chrono_from_timestamp(secs: i64, nanos: u32) -> (res: Option<UtcTime>)
    ensures
        res is Some <==> utc_timestamp_valid(secs, nanos),
        res matches Some(t) ==> t@ == (secs, nanos) && !t.is_clock_reading(),
{
    match chrono::DateTime::<chrono::Utc>::from_timestamp(secs, nanos) {
        Some(d) => Some(
            UtcTime { secs: d.timestamp(), nanos: d.timestamp_subsec_nanos(), from_clock: false },
        ),
        None => None,
    }
}

/// `chrono::DateTime::parse_from_rfc3339`, then `with_timezone(&Utc)`: the
/// instant is the named one; chrono built it, so it is representable.
#[verifier::external_body]
fn chrono_parse_rfc3339(text: &str) -> (res: Option<UtcTime>)
    ensures
        res is Some <==> rfc3339_instant(text@) is Some,
        res matches Some(t) ==> rfc3339_instant(text@) == Some(t@) && utc_timestamp_valid(
            t@.0,
            t@.1,
        ) && !t.is_clock_reading(),
{
    match chrono::DateTime::parse_from_rfc3339(text) {
        Ok(d) => {
            let u = d.with_timezone(&chrono::Utc);
            Some(UtcTime { secs: u.timestamp(), nanos: u.timestamp_subsec_nanos(), from_clock: false })
        },
        Err(_) => None,
    }
}

/// `chrono::DateTime::<Utc>::to_rfc3339` of the date-time at these seconds and
/// nanoseconds: the named text. For a year from 0 to 9999 it writes the four
/// digits of the year, the date, the time with `:60` for a leap second, every
/// nonzero digit group of the nanoseconds, and `+00:00`, all of which
/// `parse_from_rfc3339` reads back as the same instant.
#[verifier::external_body]
fn chrono_to_rfc3339(secs: i64, nanos: u32) -> (res: String)
    requires
        utc_timestamp_valid(secs, nanos),
    ensures
        res@ == rfc3339_text(secs, nanos),
        four_digit_year((secs, nanos)) ==> rfc3339_instant(res@) == Some((secs, nanos)),
{
    chrono::DateTime::<chrono::Utc>::from_timestamp(secs, nanos).unwrap().to_rfc3339()
}

/// `chrono::Utc::now`: some representable instant, marked as read from the
/// clock; which instant depends on the clock, so nothing more is claimed.
#[verifier::external_body]
fn chrono_now() -> (res: UtcTime)
    ensures
        utc_timestamp_valid(res@.0, res@.1),
        res.is_clock_reading(),
{
    let d = chrono::Utc::now();
    UtcTime { secs: d.timestamp(), nanos: d.timestamp_subsec_nanos(), from_clock: true }
}

/// `DateTime::<Utc>::default()`, which chrono documents as 1970-01-01 00:00:00
/// UTC, the Unix epoch.
#[verifier::external_body]
fn chrono_epoch() -> (res: UtcTime)
    ensures
        res@ == (0i64, 0u32),
        !res.is_clock_reading(),
        utc_timestamp_valid(res@.0, res@.1),
{
    let d = chrono::DateTime::<chrono::Utc>::default();
    UtcTime { secs: d.timestamp(), nanos: d.timestamp_subsec_nanos(), from_clock: false }
}

} // verus!
