//! When an entry was copied: an instant in UTC, read from and shown by
//! `chrono`.

use vstd::prelude::*;

verus! {

/// The text that `chrono` gives for the instant `secs` seconds and `nanos`
/// nanoseconds after the Unix epoch, formatted as `%Y-%m-%d %H:%M:%S` in UTC;
/// `None` where `chrono` has no such instant.
pub uninterp spec fn utc_text(secs: i64, nanos: u32) -> Option<Seq<char>>;

/// Calls `chrono::DateTime::from_timestamp(secs, nanos)` and, where that
/// gives an instant, formats it with `format("%Y-%m-%d %H:%M:%S")`. The
/// contract claims only that the result is the named text `utc_text`.
#[verifier::external_body]
fn chrono_utc_text(secs: i64, nanos: u32) -> (r: Option<String>)
    ensures
        match r {
            Some(s) => utc_text(secs, nanos) == Some(s@),
            None => utc_text(secs, nanos) is None,
        },
{
    match chrono::DateTime::from_timestamp(secs, nanos) {
        Some(dt) => Some(dt.format("%Y-%m-%d %H:%M:%S").to_string()),
        None => None,
    }
}

/// Reads the clock with `std::time::SystemTime::now()` and converts it with
/// chrono's `DateTime::<Utc>::from`, which handles a clock before 1970 too;
/// the instant is split into `timestamp()` and `timestamp_subsec_nanos()`.
/// The contract claims what holds of every instant that conversion returns:
/// its nanoseconds are below one second (they come from a `Duration`, or
/// are one second minus such nanoseconds), and `chrono` gives the instant
/// back from those two numbers (its documentation shows
/// `from_timestamp(dt.timestamp(), dt.timestamp_subsec_nanos())` giving
/// `dt`). Which instant comes back is not stated: it is the time of day.
/// The conversion unwraps chrono's range check, which fails only for a
/// clock more than about 262,000 years away from 1970.
#[verifier::external_body]
fn utc_now() -> (r: (i64, u32))
    ensures
        r.1 < 1_000_000_000,
        utc_text(r.0, r.1) is Some,
{
    let now = chrono::DateTime::<chrono::Utc>::from(std::time::SystemTime::now());
    (now.timestamp(), now.timestamp_subsec_nanos())
}

/// An instant that `chrono` can represent, as seconds and nanoseconds since
/// the Unix epoch.
#[derive(Clone, Copy, Debug)]
pub struct Timestamp {
    secs: i64,
    nanos: u32,
}

impl View for Timestamp {
    type V = (i64, u32);

    closed spec fn view(&self) -> (i64, u32) {
        (self.secs, self.nanos)
    }
}

impl Timestamp {
    #[verifier::type_invariant]
    spec fn representable(self) -> bool {
        utc_text(self.secs, self.nanos) is Some
    }

    /// The present instant.
    pub fn now() -> (t: Timestamp)
        ensures
            t@.1 < 1_000_000_000,
    {
        let (secs, nanos) = utc_now();
        Timestamp { secs, nanos }
    }

    /// The instant `secs` seconds and `nanos` nanoseconds after the epoch,
    /// where `chrono` has one.
    pub fn from_parts(secs: i64, nanos: u32) -> (r: Option<Timestamp>)
        ensures
            r is Some <==> utc_text(secs, nanos) is Some,
            r matches Some(t) ==> t@ == (secs, nanos),
    {
        match chrono_utc_text(secs, nanos) {
            Some(_) => Some(Timestamp { secs, nanos }),
            None => None,
        }
    }

    /// Whole seconds since the epoch.
    pub fn secs(&self) -> (r: i64)
        ensures
            r == self@.0,
    {
        self.secs
    }

    /// Nanoseconds after `secs`.
    pub fn nanos(&self) -> (r: u32)
        ensures
            r == self@.1,
    {
        self.nanos
    }

    /// The instant as `%Y-%m-%d %H:%M:%S` in UTC.
    pub fn text(&self) -> (s: String)
        ensures
            utc_text(self@.0, self@.1) == Some(s@),
    {
        proof {
            use_type_invariant(self);
        }
        match chrono_utc_text(self.secs, self.nanos) {
            Some(s) => s,
            None => String::new(),
        }
    }
}

} // verus!
