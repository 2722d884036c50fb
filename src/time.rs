use vstd::prelude::*;

verus! {

/// An instant in UTC: whole seconds since the Unix epoch and the
/// nanoseconds past that second (beyond 999,999,999 only in a leap second).
#[derive(Clone, Copy, Debug, PartialEq, Eq, Structural)]
pub struct Timestamp {
    pub secs: i64,
    pub nanos: u32,
}

pub const NANOS_PER_SEC: i128 = 1_000_000_000;

pub const NANOS_PER_HOUR: i128 = 3_600_000_000_000;

pub const NANOS_PER_DAY: i128 = 86_400_000_000_000;

pub const NANOS_PER_WEEK: i128 = 604_800_000_000_000;

impl Timestamp {
    /// `self` comes strictly before `other`: by the second, then by the
    /// nanosecond, the order of chrono's date-times.
    pub open spec fn before(self, other: Timestamp) -> bool {
        self.secs < other.secs || (self.secs == other.secs && self.nanos < other.nanos)
    }
}

/// The instant that an RFC 3339 text denotes, as seconds since the epoch and
/// nanoseconds, or none where the text is no RFC 3339 date-time.
pub uninterp spec fn rfc3339_instant(s: Seq<char>) -> Option<(i64, u32)>;

/// The RFC 3339 text of the instant with these seconds and nanoseconds, or
/// none where chrono cannot represent it.
pub uninterp spec fn rfc3339_text(secs: i64, nanos: u32) -> Option<Seq<char>>;

pub open spec fn stamp_of(p: Option<(i64, u32)>) -> Option<Timestamp> {
    match p {
        Some(p) => Some(Timestamp { secs: p.0, nanos: p.1 }),
        None => None,
    }
}

pub open spec fn text_view(s: Option<String>) -> Option<Seq<char>> {
    match s {
        Some(s) => Some(s@),
        None => None,
    }
}

/// Relies on chrono's `DateTime::parse_from_rfc3339`: the instant it reads
/// depends on the text alone.
#[verifier::external_body]
pub(crate) fn parse_rfc3339(s: &str) -> (r: Option<Timestamp>)
    ensures
        r == stamp_of(rfc3339_instant(s@)),
{
    chrono::DateTime::parse_from_rfc3339(s).ok().map(
        |d| Timestamp { secs: d.timestamp(), nanos: d.timestamp_subsec_nanos() },
    )
}

/// Relies on chrono's `DateTime::to_rfc3339`, on the date-time that
/// `DateTime::from_timestamp` makes of the instant: the text depends on the
/// instant alone.
#[verifier::external_body]
pub(crate) fn format_rfc3339(t: Timestamp) -> (r: Option<String>)
    ensures
        text_view(r) == rfc3339_text(t.secs, t.nanos),
{
    chrono::DateTime::from_timestamp(t.secs, t.nanos).map(|d| d.to_rfc3339())
}

/// Relies on chrono's `Utc::now`: the system clock, of which nothing is
/// known here.
#[verifier::external_body]
pub(crate) fn now() -> (r: Timestamp) {
    let d = chrono::Utc::now();
    Timestamp { secs: d.timestamp(), nanos: d.timestamp_subsec_nanos() }
}

/// The nanoseconds from `t` to `now` (negative where `t` is later).
pub open spec fn elapsed_nanos(t: Timestamp, now: Timestamp) -> int {
    (now.secs - t.secs) * (NANOS_PER_SEC as int) + now.nanos - t.nanos
}

/// The decimal text of one digit.
pub open spec fn digit_text(d: nat) -> Seq<char> {
    if d == 0 {
        "0"@
    } else if d == 1 {
        "1"@
    } else if d == 2 {
        "2"@
    } else if d == 3 {
        "3"@
    } else if d == 4 {
        "4"@
    } else if d == 5 {
        "5"@
    } else if d == 6 {
        "6"@
    } else if d == 7 {
        "7"@
    } else if d == 8 {
        "8"@
    } else {
        "9"@
    }
}

/// The decimal text of `n`, without leading zeros.
pub open spec fn decimal_spec(n: nat) -> Seq<char>
    decreases n,
{
    if n < 10 {
        digit_text(n)
    } else {
        decimal_spec(n / 10) + digit_text(n % 10)
    }
}

fn digit(d: u64) -> (r: &'static str)
    requires
        d < 10,
    ensures
        r@ == digit_text(d as nat),
{
    if d == 0 {
        "0"
    } else if d == 1 {
        "1"
    } else if d == 2 {
        "2"
    } else if d == 3 {
        "3"
    } else if d == 4 {
        "4"
    } else if d == 5 {
        "5"
    } else if d == 6 {
        "6"
    } else if d == 7 {
        "7"
    } else if d == 8 {
        "8"
    } else {
        "9"
    }
}

/// Writes `n` in decimal.
pub fn decimal(n: u64) -> (r: String)
    ensures
        r@ == decimal_spec(n as nat),
    decreases n,
{
    if n < 10 {
        String::from_str(digit(n))
    } else {
        let mut s = decimal(n / 10);
        s.append(digit(n % 10));
        s
    }
}

/// How long ago `t` was, seen at `now`: under an hour is "right now", then
/// whole hours under a day, whole days under a week, whole weeks under seven
/// weeks, and "a while ago" beyond.
pub open spec fn relative_spec(t: Timestamp, now: Timestamp) -> Seq<char> {
    let e = elapsed_nanos(t, now);
    if e < (NANOS_PER_HOUR as int) {
        "right now"@
    } else if e < (NANOS_PER_DAY as int) {
        decimal_spec((e / (NANOS_PER_HOUR as int)) as nat) + " hours ago"@
    } else if e < (NANOS_PER_WEEK as int) {
        decimal_spec((e / (NANOS_PER_DAY as int)) as nat) + " days ago"@
    } else if e < 7 * (NANOS_PER_WEEK as int) {
        decimal_spec((e / (NANOS_PER_WEEK as int)) as nat) + " weeks ago"@
    } else {
        "a while ago"@
    }
}

/// Says in words how long before `now` the instant `t` was.
pub fn relative_time(t: Timestamp, now: Timestamp) -> (r: String)
    ensures
        r@ == relative_spec(t, now),
{
    let e: i128 = (now.secs as i128 - t.secs as i128) * NANOS_PER_SEC + now.nanos as i128
        - t.nanos as i128;
    assert(e == elapsed_nanos(t, now));
    if e < NANOS_PER_HOUR {
        String::from_str("right now")
    } else if e < NANOS_PER_DAY {
        decimal((e / NANOS_PER_HOUR) as u64).concat(" hours ago")
    } else if e < NANOS_PER_WEEK {
        decimal((e / NANOS_PER_DAY) as u64).concat(" days ago")
    } else if e < 7 * NANOS_PER_WEEK {
        decimal((e / NANOS_PER_WEEK) as u64).concat(" weeks ago")
    } else {
        String::from_str("a while ago")
    }
}

} // verus!
