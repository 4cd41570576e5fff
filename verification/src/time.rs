//! Points in time, as the front matter of a page dates it.

use vstd::prelude::*;

verus! {

/// The first second of the year 0, counted from the Unix epoch.
pub const MIN_SECONDS: i64 = -62_167_219_200;

/// The last second of the year 9999, counted from the Unix epoch.
pub const MAX_SECONDS: i64 = 253_402_300_799;

/// The text of an instant after RFC 2822, such as
/// `Tue, 1 Jul 2003 10:52:37 +0000`.
pub uninterp spec fn rfc2822_text(seconds: int, nanoseconds: int) -> Seq<char>;

/// The text of an instant after RFC 3339, such as `1996-12-19T16:39:57+00:00`.
pub uninterp spec fn rfc3339_text(seconds: int, nanoseconds: int) -> Seq<char>;

/// The text of an instant under a `strftime` pattern.
pub uninterp spec fn formatted_text(seconds: int, nanoseconds: int, pattern: Seq<char>) -> Seq<
    char,
>;

/// Whether `seconds` and `nanoseconds` name an instant between the years 0
/// and 9999. A nanosecond count of a thousand million or more stands for a
/// leap second, and is admitted only in the last second of a minute.
pub open spec fn is_instant(seconds: int, nanoseconds: int) -> bool {
    &&& MIN_SECONDS <= seconds <= MAX_SECONDS
    &&& 0 <= nanoseconds < 2_000_000_000
    &&& nanoseconds >= 1_000_000_000 ==> seconds % 60 == 59
}

/// An instant in UTC between the years 0 and 9999: whole seconds since the
/// Unix epoch and the nanoseconds into that second.
#[derive(Debug, Clone, Copy, PartialEq, Eq)]
pub struct Timestamp {
    seconds: i64,
    nanoseconds: u32,
}

impl Timestamp {
    #[verifier::type_invariant]
    spec fn well_formed(self) -> bool {
        is_instant(self.seconds as int, self.nanoseconds as int)
    }

    /// Seconds since the Unix epoch.
    pub closed spec fn spec_seconds(&self) -> int {
        self.seconds as int
    }

    /// Nanoseconds into the second.
    pub closed spec fn spec_nanoseconds(&self) -> int {
        self.nanoseconds as int
    }

    /// The timestamp of `seconds` and `nanoseconds`, if they name an instant
    /// between the years 0 and 9999.
    pub fn new(seconds: i64, nanoseconds: u32) -> (made: Option<Timestamp>)
        ensures
            made is Some <==> is_instant(seconds as int, nanoseconds as int),
            made matches Some(t) ==> t.spec_seconds() == seconds && t.spec_nanoseconds()
                == nanoseconds,
    {
        if seconds < MIN_SECONDS || seconds > MAX_SECONDS || nanoseconds >= 2_000_000_000 {
            return None;
        }
        if nanoseconds >= 1_000_000_000 {
            let shifted: i64 = seconds - MIN_SECONDS;
            if shifted % 60 != 59 {
                return None;
            }
        }
        Some(Timestamp { seconds, nanoseconds })
    }

    /// Seconds since the Unix epoch.
    pub fn seconds(&self) -> (seconds: i64)
        ensures
            seconds == self.spec_seconds(),
            is_instant(self.spec_seconds(), self.spec_nanoseconds()),
    {
        proof {
            use_type_invariant(self);
        }
        self.seconds
    }

    /// Nanoseconds into the second.
    pub fn nanoseconds(&self) -> (nanoseconds: u32)
        ensures
            nanoseconds == self.spec_nanoseconds(),
            is_instant(self.spec_seconds(), self.spec_nanoseconds()),
    {
        proof {
            use_type_invariant(self);
        }
        self.nanoseconds
    }

    /// The instant after RFC 2822, as an RSS feed dates its items.
    pub fn to_rfc2822(&self) -> (text: String)
        ensures
            text@ == rfc2822_text(self.spec_seconds(), self.spec_nanoseconds()),
    {
        proof {
            use_type_invariant(self);
        }
        chrono_rfc2822(self.seconds, self.nanoseconds)
    }

    /// The instant after RFC 3339, as a template sees a page's date.
    pub fn to_rfc3339(&self) -> (text: String)
        ensures
            text@ == rfc3339_text(self.spec_seconds(), self.spec_nanoseconds()),
    {
        proof {
            use_type_invariant(self);
        }
        chrono_rfc3339(self.seconds, self.nanoseconds)
    }

    /// The day of the instant as `YYYY-MM-DD`, as a sitemap dates its entries.
    pub fn to_date(&self) -> (text: String)
        ensures
            text@ == formatted_text(
                self.spec_seconds(),
                self.spec_nanoseconds(),
                "%Y-%m-%d"@,
            ),
    {
        proof {
            use_type_invariant(self);
        }
        chrono_format(self.seconds, self.nanoseconds, "%Y-%m-%d")
    }
}

/// Calls `chrono::DateTime::<Utc>::from_timestamp` and `DateTime::to_rfc2822`.
/// The first returns `Some` on every instant that `is_instant` admits; the
/// second panics outside the years 0 to 9999, which `is_instant` leaves out.
/// The text is a function of the instant alone.
#[verifier::external_body]
fn chrono_rfc2822(seconds: i64, nanoseconds: u32) -> (text: String)
    requires
        is_instant(seconds as int, nanoseconds as int),
    ensures
        text@ == rfc2822_text(seconds as int, nanoseconds as int),
{
    chrono::DateTime::from_timestamp(seconds, nanoseconds).unwrap().to_rfc2822()
}

/// Calls `chrono::DateTime::<Utc>::from_timestamp` and `DateTime::to_rfc3339`,
/// which writes the instant with its offset `+00:00`. The text is a function
/// of the instant alone.
#[verifier::external_body]
fn chrono_rfc3339(seconds: i64, nanoseconds: u32) -> (text: String)
    requires
        is_instant(seconds as int, nanoseconds as int),
    ensures
        text@ == rfc3339_text(seconds as int, nanoseconds as int),
{
    chrono::DateTime::from_timestamp(seconds, nanoseconds).unwrap().to_rfc3339()
}

/// Calls `chrono::DateTime::<Utc>::from_timestamp` and `DateTime::format`, and
/// writes the result out. Writing panics on a pattern that `chrono` cannot
/// read, so only the pattern for a calendar day is admitted. The text is a
/// function of the instant and the pattern alone.
#[verifier::external_body]
fn chrono_format(seconds: i64, nanoseconds: u32, pattern: &str) -> (text: String)
    requires
        is_instant(seconds as int, nanoseconds as int),
        pattern@ == "%Y-%m-%d"@,
    ensures
        text@ == formatted_text(seconds as int, nanoseconds as int, pattern@),
{
    chrono::DateTime::from_timestamp(seconds, nanoseconds).unwrap().format(pattern).to_string()
}

} // verus!
