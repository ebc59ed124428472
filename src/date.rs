//! Modification times and the calendar date shown for them.

use vstd::prelude::*;
use vstd::arithmetic::div_mod::{lemma_fundamental_div_mod, lemma_fundamental_div_mod_converse};

verus! {

/// Nanoseconds in one second.
pub const NANOS_PER_SEC: u64 = 1_000_000_000;

/// Whole seconds on either side of 1970-01-01 00:00:00 UTC within which every
/// instant has a calendar date (about 31,700 years).
pub const DATED_SPAN: i64 = 1_000_000_000_000;

/// An instant as its distance from the Unix epoch, the way the operating
/// system hands a modification time over: a duration, and on which side of
/// the epoch it lies.
#[derive(Clone, Copy, Debug, PartialEq, Eq)]
pub struct EpochOffset {
    /// The instant lies before the epoch.
    pub before: bool,
    /// Whole seconds of the distance.
    pub secs: u64,
    /// Nanoseconds of the distance beyond `secs`.
    pub nanos: u32,
}

impl EpochOffset {
    /// The signed distance from the epoch, in nanoseconds.
    pub open spec fn signed_nanos(self) -> int {
        let d = self.secs * NANOS_PER_SEC + self.nanos;
        if self.before {
            -d
        } else {
            d
        }
    }

    /// The whole second that the instant falls in, counted from the epoch
    /// (rounded towards the past).
    pub open spec fn seconds(self) -> int {
        self.signed_nanos() / (NANOS_PER_SEC as int)
    }

    /// The whole second that the instant falls in, where it fits in an `i64`.
    pub fn whole_seconds(&self) -> (r: Option<i64>)
        ensures
            r matches Some(s) ==> s as int == self.seconds(),
            r is None <==> !(i64::MIN <= self.seconds() <= i64::MAX),
    {
        let ghost d = NANOS_PER_SEC as int;
        let n = self.nanos as u64;
        proof {
            lemma_fundamental_div_mod(n as int, d);
        }
        if !self.before {
            let extra = n / NANOS_PER_SEC;
            proof {
                lemma_fundamental_div_mod_converse(
                    self.signed_nanos(),
                    d,
                    self.secs + extra as int,
                    (n % NANOS_PER_SEC) as int,
                );
            }
            match self.secs.checked_add(extra) {
                Some(t) => {
                    if t <= i64::MAX as u64 {
                        Some(t as i64)
                    } else {
                        None
                    }
                },
                None => None,
            }
        } else {
            let up = (n + (NANOS_PER_SEC - 1)) / NANOS_PER_SEC;
            proof {
                lemma_fundamental_div_mod(n + (d - 1), d);
                lemma_fundamental_div_mod_converse(
                    self.signed_nanos(),
                    d,
                    -(self.secs + up as int),
                    up * d - n as int,
                );
            }
            match self.secs.checked_add(up) {
                Some(t) => {
                    if t < 0x8000_0000_0000_0000u64 {
                        Some(-(t as i64))
                    } else if t == 0x8000_0000_0000_0000u64 {
                        Some(i64::MIN)
                    } else {
                        None
                    }
                },
                None => None,
            }
        }
    }
}

/// The calendar date of the UTC day that holds second `secs` after the
/// epoch, written as weekday, month, day and year ("Thu Jan  1 1970"), or
/// nothing where chrono has no date for that second.
pub uninterp spec fn utc_calendar_date(secs: int) -> Option<Seq<char>>;

/// Relies on chrono's `DateTime::<Utc>::from_timestamp`, which gives `None`
/// only for seconds outside its range of dates (beyond year 262,000 either
/// way), and on `format` with `%a %b %e %Y`, which starts with the three
/// letters of the weekday.
#[verifier::external_body]
fn calendar_date(secs: i64) -> (r: Option<String>)
    ensures
        r matches Some(t) ==> utc_calendar_date(secs as int) == Some(t@) && t@.len() > 0,
        r is None ==> utc_calendar_date(secs as int) is None,
        -DATED_SPAN <= secs <= DATED_SPAN ==> r is Some,
{
    match chrono::DateTime::from_timestamp(secs, 0) {
        Some(d) => Some(d.format("%a %b %e %Y").to_string()),
        None => None,
    }
}

/// The text shown for a modification time: its calendar date, or nothing
/// where the time is unknown or has no date.
pub open spec fn modified_text(t: Option<EpochOffset>) -> Seq<char> {
    match t {
        Some(o) => if i64::MIN <= o.seconds() <= i64::MAX {
            match utc_calendar_date(o.seconds()) {
                Some(d) => d,
                None => seq![],
            }
        } else {
            seq![]
        },
        None => seq![],
    }
}

/// Renders a modification time as a calendar date; an unknown time gives
/// the empty text, a known one within `DATED_SPAN` seconds of the epoch a
/// non-empty date.
pub fn modified_date(t: Option<EpochOffset>) -> (r: String)
    ensures
        r@ == modified_text(t),
        t is None ==> r@.len() == 0,
        t matches Some(o) && -DATED_SPAN <= o.seconds() <= DATED_SPAN ==> r@.len() > 0,
{
    match t {
        Some(o) => match o.whole_seconds() {
            Some(s) => match calendar_date(s) {
                Some(d) => d,
                None => String::new(),
            },
            None => String::new(),
        },
        None => String::new(),
    }
}

} // verus!
