//! The watch: check-ins with a safe or a duress phrase, and the status of the dead man's
//! switch as time passes.

use vstd::prelude::*;
use sha2::Digest;
use crate::clock::{
    MAX_INSTANT_MS, MAX_SPAN_SECS, MIN_INSTANT_MS, MS_PER_HOUR, now_millis, span_whole_seconds, valid_instant,
    valid_span, valid_span_secs, whole_seconds,
};
use crate::config::{Config, WatchConfig};
use crate::text::{
    decimal, decimal_i64, lowered, parse_i64, parsed_i64, strip_suffix_char, to_lowercase,
    trim, trimmed_of,
};

verus! {

/// What the SHA-256 digest of a byte string is (32 bytes).
pub uninterp spec fn sha256_of(data: Seq<u8>) -> Seq<u8>;

/// Wraps `sha2::Sha256::digest`: the result is the digest named by `sha256_of`, 32 bytes long.
#[verifier::external_body]
pub(crate) fn sha256(data: &[u8]) -> (r: Vec<u8>)
    ensures
        r@ == sha256_of(data@),
        r@.len() == 32,
{
    sha2::Sha256::digest(data).to_vec()
}

/// A lowercase hexadecimal digit for a value in `0..16`.
pub open spec fn hex_digit(v: int) -> char {
    if v < 10 {
        (v + 48) as char
    } else {
        (v + 87) as char
    }
}

/// Lowercase hexadecimal: two digits per byte, high nibble first.
pub open spec fn hex_lower(b: Seq<u8>) -> Seq<char>
    decreases b.len(),
{
    if b.len() == 0 {
        Seq::empty()
    } else {
        hex_lower(b.drop_last()) + seq![hex_digit(b.last() as int / 16), hex_digit(b.last() as int % 16)]
    }
}

/// Wraps `hex::encode`, which writes each byte as two lowercase hex digits.
#[verifier::external_body]
pub(crate) fn hex_encode(data: &[u8]) -> (r: String)
    ensures
        r@ == hex_lower(data@),
{
    hex::encode(data)
}

/// A phrase as it is compared: trimmed and lowercased.
pub open spec fn normalized_phrase(p: Seq<char>) -> Seq<char> {
    lowered(trimmed_of(p))
}

/// The stored form of a phrase: hex SHA-256 of the UTF-8 bytes of its normalized form.
pub open spec fn phrase_hash(p: Seq<char>) -> Seq<char> {
    hex_lower(sha256_of(vstd::utf8::encode_utf8(normalized_phrase(p))))
}

/// Hashes a phrase: trims whitespace, lowercases, and hex-encodes the SHA-256 digest of the
/// UTF-8 bytes, so that "Hello World" and "hello world  " hash alike.
pub fn hash_phrase(phrase: &str) -> (r: String)
    ensures
        r@ == phrase_hash(phrase@),
{
    let trimmed = trim(phrase);
    let lower_text = to_lowercase(trimmed);
    let bytes = lower_text.as_str().as_bytes();
    let digest = sha256(bytes);
    hex_encode(digest.as_slice())
}

/// Seconds per unit letter of a duration: `h`, `d`, and `m` where minutes are allowed.
pub open spec fn unit_seconds(c: char, with_minutes: bool) -> Option<int> {
    if c == 'h' {
        Some(3600)
    } else if c == 'd' {
        Some(86400)
    } else if c == 'm' && with_minutes {
        Some(60)
    } else {
        None
    }
}

/// A duration text read as (count, seconds per unit): trimmed, lowercased, a unit letter
/// last, and before it a number as `str::parse::<i64>` reads it.
pub open spec fn duration_parts(s: Seq<char>, with_minutes: bool) -> Option<(int, int)> {
    let t = lowered(trimmed_of(s));
    if t.len() > 0 {
        match unit_seconds(t.last(), with_minutes) {
            Some(u) => match parsed_i64(t.drop_last()) {
                Some(n) => Some((n, u)),
                None => None,
            },
            None => None,
        }
    } else {
        None
    }
}

/// A duration text that `TimeDelta` can hold: reading it does not panic.
pub open spec fn duration_text_ok(s: Seq<char>, with_minutes: bool) -> bool {
    match duration_parts(s, with_minutes) {
        Some((n, u)) => valid_span_secs(n * u),
        None => true,
    }
}

/// The span, in milliseconds, that a duration text stands for.
pub open spec fn duration_ms(s: Seq<char>, with_minutes: bool) -> Option<int> {
    match duration_parts(s, with_minutes) {
        Some((n, u)) => Some(n * u * 1000),
        None => None,
    }
}

/// Reads a count with a unit letter: `h` hours, `d` days, and `m` minutes where allowed.
pub(crate) fn read_duration(s: &str, with_minutes: bool) -> (r: Option<i64>)
    requires
        duration_text_ok(s@, with_minutes),
    ensures
        match r {
            Some(v) => duration_ms(s@, with_minutes) == Some(v as int),
            None => duration_ms(s@, with_minutes) is None,
        },
{
    let trimmed = trim(s);
    let lower_text = to_lowercase(trimmed);
    let t = lower_text.as_str();
    let unit: i64;
    let rest: &str;
    if let Some(h) = strip_suffix_char(t, 'h') {
        unit = 3600;
        rest = h;
    } else if let Some(d) = strip_suffix_char(t, 'd') {
        unit = 86400;
        rest = d;
    } else if let Some(m) = strip_suffix_char(t, 'm') {
        if !with_minutes {
            return None;
        }
        unit = 60;
        rest = m;
    } else {
        return None;
    }
    match parse_i64(rest) {
        Some(n) => {
            assert(valid_span_secs(n * unit));
            let secs = n * unit;
            Some(secs * 1000)
        },
        None => None,
    }
}

/// Whether reading a duration text stays within `TimeDelta`'s range, so that reading it
/// does not panic.
pub fn duration_readable(s: &str, with_minutes: bool) -> (r: bool)
    ensures
        r == duration_text_ok(s@, with_minutes),
{
    let trimmed = trim(s);
    let lower_text = to_lowercase(trimmed);
    let t = lower_text.as_str();
    let unit: i128;
    let rest: &str;
    if let Some(h) = strip_suffix_char(t, 'h') {
        unit = 3600;
        rest = h;
    } else if let Some(d) = strip_suffix_char(t, 'd') {
        unit = 86400;
        rest = d;
    } else if let Some(m) = strip_suffix_char(t, 'm') {
        if !with_minutes {
            return true;
        }
        unit = 60;
        rest = m;
    } else {
        return true;
    }
    match parse_i64(rest) {
        Some(n) => {
            let secs = (n as i128) * unit;
            -(MAX_SPAN_SECS as i128) <= secs && secs <= MAX_SPAN_SECS as i128
        },
        None => true,
    }
}

/// Whether computing the status of these settings stays within range (see
/// `status_defined`).
pub fn status_is_defined(w: &WatchConfig) -> (r: bool)
    ensures
        r == status_defined(*w),
{
    match w.last_checkin {
        None => true,
        Some(last) => {
            if !(MIN_INSTANT_MS <= last && last <= MAX_INSTANT_MS) {
                return false;
            }
            if !duration_readable(w.interval.as_str(), true) || !duration_readable(w.grace_period.as_str(), true) {
                return false;
            }
            let interval = match read_duration(w.interval.as_str(), true) {
                Some(v) => v as i128,
                None => 24 * (MS_PER_HOUR as i128),
            };
            let grace = match read_duration(w.grace_period.as_str(), true) {
                Some(v) => v as i128,
                None => 6 * (MS_PER_HOUR as i128),
            };
            let early = interval - 2 * (MS_PER_HOUR as i128);
            let late = interval + grace;
            -(i64::MAX as i128) <= early && early <= i64::MAX as i128 && -(i64::MAX as i128) <= late && late
                <= i64::MAX as i128
        },
    }
}

/// Whether computing the expiry of these settings stays within range (see
/// `expiry_defined`).
pub fn expiry_is_defined(w: &WatchConfig) -> (r: bool)
    ensures
        r == expiry_defined(*w),
{
    match w.last_checkin {
        None => true,
        Some(last) => {
            if !(MIN_INSTANT_MS <= last && last <= MAX_INSTANT_MS) {
                return false;
            }
            if !duration_readable(w.interval.as_str(), true) || !duration_readable(w.grace_period.as_str(), true) {
                return false;
            }
            let interval = match read_duration(w.interval.as_str(), true) {
                Some(v) => v as i128,
                None => 24 * (MS_PER_HOUR as i128),
            };
            let grace = match read_duration(w.grace_period.as_str(), true) {
                Some(v) => v as i128,
                None => 6 * (MS_PER_HOUR as i128),
            };
            let due = last as i128 + interval;
            let end = due + grace;
            MIN_INSTANT_MS as i128 <= due && due <= MAX_INSTANT_MS as i128 && MIN_INSTANT_MS as i128 <= end && end
                <= MAX_INSTANT_MS as i128
        },
    }
}

/// Parses a duration such as "24h", "7d" or "30m" into milliseconds.
pub fn parse_duration(s: &str) -> (r: Option<i64>)
    requires
        duration_text_ok(s@, true),
    ensures
        match r {
            Some(v) => duration_ms(s@, true) == Some(v as int),
            None => duration_ms(s@, true) is None,
        },
{
    read_duration(s, true)
}

/// Two hours, the warning window before the interval runs out.
pub open spec fn warning_window_ms() -> int {
    2 * MS_PER_HOUR
}

/// The check-in interval in milliseconds (24 hours when the text does not read).
pub open spec fn interval_ms(w: WatchConfig) -> int {
    match duration_ms(w.interval@, true) {
        Some(v) => v,
        None => 24 * MS_PER_HOUR,
    }
}

/// The grace period in milliseconds (6 hours when the text does not read).
pub open spec fn grace_ms(w: WatchConfig) -> int {
    match duration_ms(w.grace_period@, true) {
        Some(v) => v,
        None => 6 * MS_PER_HOUR,
    }
}

/// The watch settings for which computing the status does not panic: readable durations,
/// and interval minus two hours and interval plus grace within `TimeDelta`'s range.
pub open spec fn status_defined(w: WatchConfig) -> bool {
    w.last_checkin matches Some(last) ==> {
        &&& valid_instant(last as int)
        &&& duration_text_ok(w.interval@, true)
        &&& duration_text_ok(w.grace_period@, true)
        &&& valid_span(interval_ms(w) - warning_window_ms())
        &&& valid_span(interval_ms(w) + grace_ms(w))
    }
}

/// The watch settings for which computing the expiry does not panic: readable durations,
/// and the last check-in plus interval, and plus grace, within `DateTime`'s range.
pub open spec fn expiry_defined(w: WatchConfig) -> bool {
    w.last_checkin matches Some(last) ==> {
        &&& valid_instant(last as int)
        &&& duration_text_ok(w.interval@, true)
        &&& duration_text_ok(w.grace_period@, true)
        &&& valid_instant(last + interval_ms(w))
        &&& valid_instant(last + interval_ms(w) + grace_ms(w))
    }
}

/// What happened at a check-in.
#[derive(Debug, Clone, Copy, PartialEq, Eq, Structural)]
pub enum CheckInResult {
    /// The safe phrase: the watch is reset.
    Accepted,
    /// The duress phrase: it looks accepted, but help is on the way.
    Duress,
    /// Neither phrase.
    Invalid,
}

/// How the watch stands.
#[derive(Debug, Clone, Copy, PartialEq, Eq, Structural)]
pub enum WatchStatus {
    /// Within the check-in window.
    Secure,
    /// Check-in due within two hours.
    Warning,
    /// In the grace period.
    Critical,
    /// Expired: the fleet gets notified.
    Expired,
}

/// How far along the way to expiry a status is: Secure 0, Warning 1, Critical 2, Expired 3.
pub open spec fn status_rank(s: WatchStatus) -> int {
    match s {
        WatchStatus::Secure => 0,
        WatchStatus::Warning => 1,
        WatchStatus::Critical => 2,
        WatchStatus::Expired => 3,
    }
}

/// The status at instant `now`: expired without a check-in; otherwise by the time elapsed
/// since the last one against interval minus two hours, the interval, and interval plus grace.
pub open spec fn status_at_spec(w: WatchConfig, now: int) -> WatchStatus {
    match w.last_checkin {
        None => WatchStatus::Expired,
        Some(last) => {
            let elapsed = now - last;
            if elapsed < interval_ms(w) - warning_window_ms() {
                WatchStatus::Secure
            } else if elapsed < interval_ms(w) {
                WatchStatus::Warning
            } else if elapsed < interval_ms(w) + grace_ms(w) {
                WatchStatus::Critical
            } else {
                WatchStatus::Expired
            }
        },
    }
}

/// The time left at instant `now` before the watch expires, if it has not.
pub open spec fn time_left_spec(w: WatchConfig, now: int) -> Option<int> {
    match w.last_checkin {
        None => None,
        Some(last) => {
            let expiry = last + interval_ms(w) + grace_ms(w);
            if expiry > now {
                Some(expiry - now)
            } else {
                None
            }
        },
    }
}

/// What a check-in with phrase `p` gives: the duress phrase is looked for first.
pub open spec fn check_in_outcome(w: WatchConfig, p: Seq<char>) -> CheckInResult {
    if phrase_hash(p) == w.duress_word_hash@ {
        CheckInResult::Duress
    } else if phrase_hash(p) == w.safe_word_hash@ {
        CheckInResult::Accepted
    } else {
        CheckInResult::Invalid
    }
}

/// The watch over a configuration.
pub struct Watch {
    config: Config,
}

impl Watch {
    /// The configuration this watch keeps.
    pub closed spec fn spec_config(&self) -> Config {
        self.config
    }

    /// A watch over the given configuration.
    pub fn new(config: Config) -> (w: Watch)
        ensures
            w.spec_config() == config,
    {
        Watch { config }
    }

    /// The configuration, as updated by check-ins.
    pub fn config(&self) -> (c: &Config)
        ensures
            *c == self.spec_config(),
    {
        &self.config
    }

    /// Gives back the configuration, as updated by check-ins.
    pub fn into_config(self) -> (c: Config)
        ensures
            c == self.spec_config(),
    {
        self.config
    }

    /// Checks in at instant `now`. Either phrase resets the timer, recording `now` as the
    /// last check-in: the safe phrase gives `Accepted`, the duress phrase `Duress` (it looks
    /// the same from outside; the alarm is raised by the caller). Any other phrase gives
    /// `Invalid` and changes nothing.
    pub fn check_in_at(&mut self, phrase: &str, now: i64) -> (r: CheckInResult)
        ensures
            r == check_in_outcome(old(self).spec_config().watch, phrase@),
            final(self).spec_config() == (if r != CheckInResult::Invalid {
                Config {
                    watch: WatchConfig {
                        last_checkin: Some(now),
                        ..old(self).spec_config().watch
                    },
                    ..old(self).spec_config()
                }
            } else {
                old(self).spec_config()
            }),
    {
        let hash = hash_phrase(phrase);
        if hash == self.config.watch.duress_word_hash {
            self.config.watch.last_checkin = Some(now);
            return CheckInResult::Duress;
        }
        if hash == self.config.watch.safe_word_hash {
            self.config.watch.last_checkin = Some(now);
            return CheckInResult::Accepted;
        }
        CheckInResult::Invalid
    }

    /// Checks in now (see `check_in_at`). Keeping the updated configuration on disk is
    /// up to the caller.
    pub fn check_in(&mut self, phrase: &str) -> (r: CheckInResult)
        ensures
            r == check_in_outcome(old(self).spec_config().watch, phrase@),
            r == CheckInResult::Invalid ==> final(self).spec_config() == old(self).spec_config(),
            r != CheckInResult::Invalid ==> exists|now: i64|
                valid_instant(now as int) && final(self).spec_config() == (Config {
                    watch: WatchConfig {
                        last_checkin: Some(now),
                        ..old(self).spec_config().watch
                    },
                    ..old(self).spec_config()
                }),
    {
        let now = now_millis();
        self.check_in_at(phrase, now)
    }

    /// The status of the watch at instant `now`.
    pub fn status_at(&self, now: i64) -> (r: WatchStatus)
        requires
            status_defined(self.spec_config().watch),
            valid_instant(now as int),
        ensures
            r == status_at_spec(self.spec_config().watch, now as int),
    {
        let last = match self.config.watch.last_checkin {
            Some(t) => t,
            None => return WatchStatus::Expired,
        };
        let interval = match parse_duration(self.config.watch.interval.as_str()) {
            Some(v) => v,
            None => 24 * MS_PER_HOUR,
        };
        let grace = match parse_duration(self.config.watch.grace_period.as_str()) {
            Some(v) => v,
            None => 6 * MS_PER_HOUR,
        };
        let elapsed = now - last;
        if elapsed < interval - 2 * MS_PER_HOUR {
            WatchStatus::Secure
        } else if elapsed < interval {
            WatchStatus::Warning
        } else if elapsed < interval + grace {
            WatchStatus::Critical
        } else {
            WatchStatus::Expired
        }
    }

    /// The status of the watch now.
    pub fn status(&self) -> (r: WatchStatus)
        requires
            status_defined(self.spec_config().watch),
        ensures
            exists|now: i64| valid_instant(now as int) && r == status_at_spec(self.spec_config().watch, now as int),
    {
        let now = now_millis();
        self.status_at(now)
    }

    /// The time left at instant `now` before the watch expires; `None` once it has.
    pub fn time_until_expiry_at(&self, now: i64) -> (r: Option<i64>)
        requires
            expiry_defined(self.spec_config().watch),
            valid_instant(now as int),
        ensures
            match r {
                Some(v) => time_left_spec(self.spec_config().watch, now as int) == Some(v as int),
                None => time_left_spec(self.spec_config().watch, now as int) is None,
            },
    {
        let last = match self.config.watch.last_checkin {
            Some(t) => t,
            None => return None,
        };
        let interval = match parse_duration(self.config.watch.interval.as_str()) {
            Some(v) => v,
            None => 24 * MS_PER_HOUR,
        };
        let grace = match parse_duration(self.config.watch.grace_period.as_str()) {
            Some(v) => v,
            None => 6 * MS_PER_HOUR,
        };
        let expiry = last + interval + grace;
        if expiry > now {
            Some(expiry - now)
        } else {
            None
        }
    }

    /// The time left now before the watch expires; `None` once it has.
    pub fn time_until_expiry(&self) -> (r: Option<i64>)
        requires
            expiry_defined(self.spec_config().watch),
        ensures
            exists|now: i64|
                valid_instant(now as int) && match r {
                    Some(v) => time_left_spec(self.spec_config().watch, now as int) == Some(v as int),
                    None => time_left_spec(self.spec_config().watch, now as int) is None,
                },
    {
        let now = now_millis();
        self.time_until_expiry_at(now)
    }

    /// Sets the safe and duress phrases of a configuration (stored hashed).
    pub fn set_phrases(config: &mut Config, safe_word: &str, duress_word: &str)
        ensures
            final(config).watch.safe_word_hash@ == phrase_hash(safe_word@),
            final(config).watch.duress_word_hash@ == phrase_hash(duress_word@),
            final(config).watch.interval == old(config).watch.interval,
            final(config).watch.grace_period == old(config).watch.grace_period,
            final(config).watch.last_checkin == old(config).watch.last_checkin,
            final(config).fleet == old(config).fleet,
            final(config).smtp == old(config).smtp,
            final(config).cargo == old(config).cargo,
            final(config).scuttle == old(config).scuttle,
    {
        config.watch.safe_word_hash = hash_phrase(safe_word);
        config.watch.duress_word_hash = hash_phrase(duress_word);
    }
}

/// How a span is written for people: "expired" when negative; otherwise days and hours,
/// hours and minutes, or minutes, by the largest unit present.
pub open spec fn duration_text(ms: int) -> Seq<char> {
    let t = whole_seconds(ms);
    if t < 0 {
        "expired"@
    } else {
        let days = t / 86400;
        let hours = (t % 86400) / 3600;
        let mins = (t % 3600) / 60;
        if days > 0 {
            decimal(days) + "d "@ + decimal(hours) + "h"@
        } else if hours > 0 {
            decimal(hours) + "h "@ + decimal(mins) + "m"@
        } else {
            decimal(mins) + "m"@
        }
    }
}

/// Writes a span (in milliseconds) for people, such as "1d 2h", "3h 5m" or "42m".
pub fn format_duration(ms: i64) -> (r: String)
    ensures
        r@ == duration_text(ms as int),
{
    let total_secs = span_whole_seconds(ms);
    if total_secs < 0 {
        return String::from_str("expired");
    }
    let days = total_secs / 86400;
    let hours = (total_secs % 86400) / 3600;
    let mins = (total_secs % 3600) / 60;
    if days > 0 {
        let mut r = decimal_i64(days);
        r.append("d ");
        r.append(decimal_i64(hours).as_str());
        r.append("h");
        r
    } else if hours > 0 {
        let mut r = decimal_i64(hours);
        r.append("h ");
        r.append(decimal_i64(mins).as_str());
        r.append("m");
        r
    } else {
        let mut r = decimal_i64(mins);
        r.append("m");
        r
    }
}

/// Checking in with the duress phrase always signals duress, whatever the safe phrase is.
pub proof fn lemma_duress_phrase_signals_duress(w: WatchConfig, safe: Seq<char>, duress: Seq<char>)
    requires
        w.safe_word_hash@ == phrase_hash(safe),
        w.duress_word_hash@ == phrase_hash(duress),
    ensures
        check_in_outcome(w, duress) == CheckInResult::Duress,
{
}

/// Checking in with the safe phrase is accepted, unless it hashes like the duress phrase.
pub proof fn lemma_safe_phrase_accepted(w: WatchConfig, safe: Seq<char>, duress: Seq<char>)
    requires
        w.safe_word_hash@ == phrase_hash(safe),
        w.duress_word_hash@ == phrase_hash(duress),
        phrase_hash(safe) != phrase_hash(duress),
    ensures
        check_in_outcome(w, safe) == CheckInResult::Accepted,
{
}

/// Phrases that differ only in surrounding whitespace and letter case check in alike.
pub proof fn lemma_check_in_ignores_case_and_padding(w: WatchConfig, p: Seq<char>, q: Seq<char>)
    requires
        normalized_phrase(p) == normalized_phrase(q),
    ensures
        check_in_outcome(w, p) == check_in_outcome(w, q),
{
}

/// As time passes the status never moves back toward Secure.
pub proof fn lemma_status_never_improves(w: WatchConfig, t1: int, t2: int)
    requires
        t1 <= t2,
    ensures
        status_rank(status_at_spec(w, t1)) <= status_rank(status_at_spec(w, t2)),
{
}

/// Right after an accepted check-in the watch is Secure, when the interval is longer than
/// the two-hour warning window.
pub proof fn lemma_fresh_check_in_is_secure(w: WatchConfig, now: int)
    requires
        w.last_checkin == Some(now as i64),
        now == now as i64,
        interval_ms(w) > warning_window_ms(),
    ensures
        status_at_spec(w, now) == WatchStatus::Secure,
{
}

/// With a grace period that is not negative, no time is left exactly when the status is
/// Expired.
pub proof fn lemma_no_time_left_iff_expired(w: WatchConfig, now: int)
    requires
        grace_ms(w) >= 0,
    ensures
        (time_left_spec(w, now) is None) <==> status_at_spec(w, now) == WatchStatus::Expired,
{
}

/// The headline of a status report.
pub open spec fn status_headline_text(s: WatchStatus) -> Seq<char> {
    match s {
        WatchStatus::Secure => "Status: SECURE"@,
        WatchStatus::Warning => "Status: CHECK-IN DUE SOON"@,
        WatchStatus::Critical => "Status: CRITICAL - Grace period active!"@,
        WatchStatus::Expired => "Status: EXPIRED - Fleet notified!"@,
    }
}

/// The headline of a status report.
pub fn status_headline(s: WatchStatus) -> (r: &'static str)
    ensures
        r@ == status_headline_text(s),
{
    match s {
        WatchStatus::Secure => "Status: SECURE",
        WatchStatus::Warning => "Status: CHECK-IN DUE SOON",
        WatchStatus::Critical => "Status: CRITICAL - Grace period active!",
        WatchStatus::Expired => "Status: EXPIRED - Fleet notified!",
    }
}

} // verus!
