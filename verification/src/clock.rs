//! Moments in time and how they are written.

use crate::order::text_before;
use vstd::prelude::*;

verus! {

/// The first second that `chrono` can hold, counted from the Unix epoch.
pub const FIRST_SECOND: i64 = -8334601228800;

/// The last second that `chrono` can hold, counted from the Unix epoch.
pub const LAST_SECOND: i64 = 8210266876799;

/// The first second of the year 0.
pub const FIRST_FOUR_DIGIT_SECOND: i64 = -62167219200;

/// The last second of the year 9999.
pub const LAST_FOUR_DIGIT_SECOND: i64 = 253402300799;

/// A moment: seconds since the Unix epoch, and nanoseconds into the second.
#[derive(Debug, Clone, Copy)]
pub struct Moment {
    pub secs: i64,
    pub nanos: u32,
}

/// Whether a moment has a second of its own, no leap second.
pub open spec fn plain_moment(m: Moment) -> bool {
    m.nanos < 1_000_000_000
}

/// Whether `chrono` can hold a moment with these seconds.
pub open spec fn within_calendar(secs: int) -> bool {
    FIRST_SECOND <= secs <= LAST_SECOND
}

/// Whether a second lies in the years 0 to 9999, whose texts have four digits.
pub open spec fn in_four_digit_year(secs: int) -> bool {
    FIRST_FOUR_DIGIT_SECOND <= secs <= LAST_FOUR_DIGIT_SECOND
}

/// Whether the moment `a` comes before the moment `b`.
pub open spec fn earlier(a: Moment, b: Moment) -> bool {
    a.secs < b.secs || (a.secs == b.secs && a.nanos < b.nanos)
}

/// Whether the text is that of the moment, which lies in a year of four digits.
pub open spec fn tells_moment(text: Seq<char>, m: Moment) -> bool {
    &&& plain_moment(m)
    &&& in_four_digit_year(m.secs as int)
    &&& text == utc_text(m.secs, m.nanos)
}

/// Whether the text stands to the texts of all moments as the moment stands to
/// these moments, over the years of four digits.
pub open spec fn ordered_as_time(text: Seq<char>, m: Moment) -> bool {
    in_four_digit_year(m.secs as int) ==> forall|t: Seq<char>, other: Moment| #[trigger]
        tells_moment(t, other) ==> {
            &&& text_before(text, t) <==> earlier(m, other)
            &&& text_before(t, text) <==> earlier(other, m)
        }
}

/// What `chrono::DateTime::to_rfc3339` gives for the moment in UTC.
pub uninterp spec fn utc_text(secs: i64, nanos: u32) -> Seq<char>;

/// Calls `chrono::DateTime::from_timestamp` and `to_rfc3339`. There is a text
/// where the seconds are in chrono's range (1 January 262144 BCE to 31 December
/// 262142 CE), and it depends on the moment alone. In the years 0 to 9999 all
/// parts of the text have a fixed width but for the fraction, which has none,
/// three, six or nine digits, and `+` comes before `.` and the digits: such texts
/// stand in the order of their moments.
#[verifier::external_body]
pub(crate) fn utc_rfc3339(moment: Moment) -> (r: Option<String>)
    requires
        plain_moment(moment),
    ensures
        r is Some == within_calendar(moment.secs as int),
        r matches Some(text) ==> text@ == utc_text(moment.secs, moment.nanos),
        r matches Some(text) ==> ordered_as_time(text@, moment),
{
    chrono::DateTime::from_timestamp(moment.secs, moment.nanos).map(|t| t.to_rfc3339())
}

/// Calls `chrono::Utc::now`. The clock is not before the Unix epoch (chrono
/// panics where it is), its second is in chrono's range and it tells no leap
/// second; nothing else is said of the result.
#[verifier::external_body]
pub(crate) fn utc_now() -> (now: Moment)
    ensures
        plain_moment(now),
        0 <= now.secs <= LAST_SECOND,
{
    let now = chrono::Utc::now();
    Moment { secs: now.timestamp(), nanos: now.timestamp_subsec_nanos() }
}

/// Whether the text is that of a moment that the clock can tell.
pub open spec fn is_timestamp(text: Seq<char>) -> bool {
    exists|m: Moment| #[trigger]
        plain_moment(m) && 0 <= m.secs <= LAST_SECOND && text == utc_text(m.secs, m.nanos)
}

/// The moment as text.
pub fn timestamp_of(moment: Moment) -> (text: String)
    requires
        plain_moment(moment),
        within_calendar(moment.secs as int),
    ensures
        text@ == utc_text(moment.secs, moment.nanos),
{
    match utc_rfc3339(moment) {
        Some(text) => text,
        None => String::new(),
    }
}

/// The present moment as text.
pub fn timestamp() -> (text: String)
    ensures
        is_timestamp(text@),
{
    let now = utc_now();
    let text = timestamp_of(now);
    assert(plain_moment(now));
    text
}

/// The number that a `u64` has when its bits are read as an `i64`.
pub open spec fn as_signed(n: u64) -> int {
    if n <= i64::MAX {
        n as int
    } else {
        n - 0x1_0000_0000_0000_0000
    }
}

/// The number that a `u64` has when its bits are read as an `i64`.
pub fn to_signed(n: u64) -> (r: i64)
    ensures
        r == as_signed(n),
{
    if n <= i64::MAX as u64 {
        n as i64
    } else {
        -((u64::MAX - n) as i64) - 1
    }
}

} // verus!
