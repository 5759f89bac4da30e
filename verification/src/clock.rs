//! Instants and spans of time, in milliseconds.
//!
//! An instant is a count of milliseconds since 1970-01-01T00:00:00Z, within the range of
//! dates that `chrono::DateTime<Utc>` can hold. A span is a signed count of milliseconds,
//! within the range of `chrono::TimeDelta`. Adding spans, or a span to an instant, outside
//! those ranges makes chrono panic; the contracts here keep clear of that.

use vstd::prelude::*;

verus! {

/// The earliest instant chrono can hold: -262143-01-01T00:00:00Z.
pub const MIN_INSTANT_MS: i64 = -8334601315200000;

/// The latest instant chrono can hold, to the millisecond: +262142-12-31T23:59:59.999Z.
pub const MAX_INSTANT_MS: i64 = 8210266876799999;

/// The largest count of whole seconds a `TimeDelta` can hold (`i64::MAX / 1000`).
pub const MAX_SPAN_SECS: i64 = 9223372036854775;

pub const MS_PER_SECOND: i64 = 1000;
pub const MS_PER_MINUTE: i64 = 60000;
pub const MS_PER_HOUR: i64 = 3600000;
pub const MS_PER_DAY: i64 = 86400000;

/// An instant that `DateTime<Utc>` can represent.
pub open spec fn valid_instant(ms: int) -> bool {
    MIN_INSTANT_MS <= ms <= MAX_INSTANT_MS
}

/// A span that `TimeDelta` can represent: at most `i64::MAX` milliseconds either way.
pub open spec fn valid_span(ms: int) -> bool {
    -(i64::MAX as int) <= ms <= i64::MAX as int
}

/// A count of whole seconds that `TimeDelta::seconds` accepts.
pub open spec fn valid_span_secs(secs: int) -> bool {
    -(MAX_SPAN_SECS as int) <= secs <= MAX_SPAN_SECS as int
}

/// Division that rounds toward zero, as Rust's integer `/` does.
pub open spec fn div_toward_zero(a: int, b: int) -> int
    recommends
        b > 0,
{
    if a >= 0 {
        a / b
    } else {
        -((-a) / b)
    }
}

/// `TimeDelta::num_seconds`: the whole seconds in a span, rounded toward zero.
pub open spec fn whole_seconds(ms: int) -> int {
    div_toward_zero(ms, 1000)
}

/// `TimeDelta::num_hours`: the whole hours in a span, rounded toward zero.
pub open spec fn whole_hours(ms: int) -> int {
    div_toward_zero(whole_seconds(ms), 3600)
}

/// `Timelike::hour` of an instant in UTC.
pub open spec fn hour_of_day(ms: int) -> int {
    (ms / (MS_PER_HOUR as int)) % 24
}

/// `Weekday::num_days_from_monday` of an instant in UTC (1970-01-01 was a Thursday).
pub open spec fn day_of_week(ms: int) -> int {
    (ms / (MS_PER_DAY as int) + 3) % 7
}

/// Wraps `chrono::Utc::now`, taken to the millisecond. Whatever the clock says, chrono
/// holds it as a `DateTime<Utc>`, so it is a valid instant; nothing more is promised.
#[verifier::external_body]
pub(crate) fn now_millis() -> (t: i64)
    ensures
        valid_instant(t as int),
{
    chrono::Utc::now().timestamp_millis()
}

/// The whole seconds in a span, rounded toward zero.
pub fn span_whole_seconds(ms: i64) -> (r: i64)
    ensures
        r == whole_seconds(ms as int),
{
    if ms >= 0 {
        ms / 1000
    } else if ms == i64::MIN {
        -9223372036854775
    } else {
        -((-ms) / 1000)
    }
}

/// The whole hours in a span, rounded toward zero.
pub fn span_whole_hours(ms: i64) -> (r: i64)
    ensures
        r == whole_hours(ms as int),
{
    let secs = span_whole_seconds(ms);
    if secs >= 0 {
        secs / 3600
    } else {
        -((-secs) / 3600)
    }
}

/// The hour of the day (0 to 23) of an instant, in UTC.
pub fn instant_hour(ms: i64) -> (r: u32)
    requires
        valid_instant(ms as int),
    ensures
        r as int == hour_of_day(ms as int),
        r < 24,
{
    let shifted: i64 = ms - MIN_INSTANT_MS;
    let hours: i64 = shifted / MS_PER_HOUR;
    proof {
        let m = ms as int;
        let h = MS_PER_HOUR as int;
        assert(MIN_INSTANT_MS as int == -2315167032 * h);
        vstd::arithmetic::div_mod::lemma_hoist_over_denominator(m, 2315167032, h as nat);
        assert(hours as int == m / h + 2315167032);
        assert((m / h + 2315167032) % 24 == (m / h) % 24) by {
            assert(m / h + 2315167032 == 24 * 96465293 + m / h);
            vstd::arithmetic::div_mod::lemma_mod_multiples_vanish(96465293, m / h, 24);
        }
    }
    (hours % 24) as u32
}

/// The day of the week (0 for Monday to 6 for Sunday) of an instant, in UTC.
pub fn instant_weekday(ms: i64) -> (r: u32)
    requires
        valid_instant(ms as int),
    ensures
        r as int == day_of_week(ms as int),
        r < 7,
{
    let shifted: i64 = ms - MIN_INSTANT_MS;
    let days: i64 = shifted / MS_PER_DAY;
    proof {
        let m = ms as int;
        let d = MS_PER_DAY as int;
        assert(MIN_INSTANT_MS as int == -96465293 * d);
        vstd::arithmetic::div_mod::lemma_hoist_over_denominator(m, 96465293, d as nat);
        assert(days as int == m / d + 96465293);
        assert((m / d + 96465293 + 2) % 7 == (m / d + 3) % 7) by {
            assert(m / d + 96465293 + 2 == 7 * 13780756 + (m / d + 3));
            vstd::arithmetic::div_mod::lemma_mod_multiples_vanish(13780756, m / d + 3, 7);
        }
    }
    ((days + 2) % 7) as u32
}

} // verus!
