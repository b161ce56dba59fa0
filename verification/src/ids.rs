//! Identifiers and clock readings, taken from `uuid` and `chrono`.

use vstd::prelude::*;

verus! {

/// A point in time as `chrono` reports it: whole seconds since the Unix epoch
/// and the nanoseconds past that second.
#[derive(Clone, Copy, Debug)]
pub struct Instant {
    pub secs: i64,
    pub nanos: u32,
}

impl Instant {
    /// The instant in nanoseconds since the Unix epoch.
    pub open spec fn total_nanos(self) -> int {
        self.secs * 1_000_000_000 + self.nanos
    }
}

/// Nanoseconds from `earlier` to `later` (negative when `later` comes first).
pub fn nanos_between(earlier: Instant, later: Instant) -> (d: i128)
    ensures
        d == later.total_nanos() - earlier.total_nanos(),
{
    let secs: i128 = (later.secs as i128) - (earlier.secs as i128);
    secs * 1_000_000_000 + (later.nanos as i128) - (earlier.nanos as i128)
}

/// The positions of the hyphens in a hyphenated UUID.
pub open spec fn is_uuid_hyphen_position(i: int) -> bool {
    i == 8 || i == 13 || i == 18 || i == 23
}

/// A hyphenated lower-case UUID: 36 characters, hyphens at 8, 13, 18 and 23,
/// lower-case hexadecimal digits elsewhere.
pub open spec fn is_hyphenated_uuid(s: Seq<char>) -> bool {
    &&& s.len() == 36
    &&& forall|i: int|
        0 <= i < 36 ==> if is_uuid_hyphen_position(i) {
            s[i] == '-'
        } else {
            ('0' <= s[i] && s[i] <= '9') || ('a' <= s[i] && s[i] <= 'f')
        }
}

/// A fresh random identifier: `uuid::Uuid::new_v4()` rendered by its
/// `Display` impl, which writes the hyphenated lower-case form. Which value
/// comes back is chance; only its shape is stated.
#[verifier::external_body]
pub fn new_uuid() -> (id: String)
    ensures
        is_hyphenated_uuid(id@),
{
    uuid::Uuid::new_v4().to_string()
}

/// Every character of `s` is a decimal digit.
pub open spec fn all_digits(s: Seq<char>) -> bool {
    forall|i: int| 0 <= i < s.len() ==> '0' <= #[trigger] s[i] <= '9'
}

/// A date as RFC 3339 writes it: a year of four digits, or a sign and at
/// least four digits, then `-MM-DD`.
pub open spec fn is_rfc3339_date(d: Seq<char>) -> bool {
    let n = d.len();
    let year = d.take(n - 6);
    &&& n >= 10
    &&& d[n - 6] == '-' && all_digits(d.subrange(n - 5, n - 3))
    &&& d[n - 3] == '-' && all_digits(d.subrange(n - 2, n as int))
    &&& ((year.len() == 4 && all_digits(year)) || ((year[0] == '+' || year[0] == '-') && all_digits(
        year.skip(1),
    )))
}

/// A time of day as `HH:MM:SS`.
pub open spec fn is_clock_time(t: Seq<char>) -> bool {
    &&& t.len() == 8
    &&& t[2] == ':' && t[5] == ':'
    &&& all_digits(t.take(2)) && all_digits(t.subrange(3, 5)) && all_digits(t.skip(6))
}

/// Fractional seconds as chrono writes them: none, or a `.` and three, six
/// or nine digits.
pub open spec fn is_second_fraction(f: Seq<char>) -> bool {
    f.len() == 0 || (f[0] == '.' && (f.len() == 4 || f.len() == 7 || f.len() == 10) && all_digits(
        f.skip(1),
    ))
}

/// A UTC time in RFC 3339 form with the offset written `+00:00`, as
/// `chrono`'s `to_rfc3339` writes a `DateTime<Utc>`.
pub open spec fn is_rfc3339_utc(t: Seq<char>) -> bool {
    exists|date: Seq<char>, time: Seq<char>, frac: Seq<char>|
        #![trigger is_rfc3339_date(date), is_clock_time(time), is_second_fraction(frac)]
        is_rfc3339_date(date) && is_clock_time(time) && is_second_fraction(frac) && t == date
            + "T"@ + time + frac + "+00:00"@
}

/// The current time as `chrono::Utc::now().to_rfc3339()` writes it: the
/// date, `T`, the time, the fractional seconds when they are not zero, and
/// the offset `+00:00` (chrono's `write_rfc3339` with `AutoSi` seconds and no
/// `Z`). Which time it is depends on the clock and is not stated.
#[verifier::external_body]
pub fn now_rfc3339() -> (t: String)
    ensures
        is_rfc3339_utc(t@),
{
    chrono::Utc::now().to_rfc3339()
}

/// The current time from `chrono::Utc::now()`, as seconds since the epoch
/// (`timestamp`) and the nanoseconds past them (`timestamp_subsec_nanos`).
/// The value depends on the clock; nothing is stated of it.
#[verifier::external_body]
pub fn now_instant() -> (t: Instant) {
    let now = chrono::Utc::now();
    Instant { secs: now.timestamp(), nanos: now.timestamp_subsec_nanos() }
}

} // verus!
