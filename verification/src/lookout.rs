//! The lookout: notices check-ins at unusual hours or far ahead of time.

use vstd::prelude::*;
use crate::clock::{
    MAX_INSTANT_MS, MIN_INSTANT_MS, MS_PER_HOUR, day_of_week, hour_of_day, instant_hour, instant_weekday, span_whole_hours,
    valid_instant, whole_hours, whole_seconds,
};
use crate::config::{Config, WatchConfig};
use crate::watch::{duration_ms, duration_readable, duration_text_ok, interval_ms, read_duration};

verus! {

/// How many check-ins the lookout remembers.
pub const HISTORY_LIMIT: usize = 30;

/// One remembered check-in.
#[derive(Debug, Clone, Copy, PartialEq, Eq, Structural)]
pub struct CheckinEvent {
    /// The instant, in milliseconds since the Unix epoch (UTC).
    pub timestamp: i64,
    /// The hour of the day (0 to 23), UTC.
    pub hour_of_day: u32,
    /// The day of the week (0 for Monday to 6 for Sunday), UTC.
    pub day_of_week: u32,
}

/// How suspicious a check-in looks.
#[derive(Debug, Clone, Copy, PartialEq, Eq, Structural)]
pub enum SuspicionLevel {
    /// Everything looks normal.
    Normal,
    /// Slightly off.
    Unusual,
    /// Getting weird.
    Suspicious,
    /// Something is very wrong.
    HighlyAnomalous,
}

/// The event recorded for a check-in at instant `ts`.
pub open spec fn event_for(ts: i64) -> CheckinEvent {
    CheckinEvent {
        timestamp: ts,
        hour_of_day: hour_of_day(ts as int) as u32,
        day_of_week: day_of_week(ts as int) as u32,
    }
}

/// The history after recording `e`: appended, and the oldest dropped past the limit.
pub open spec fn recorded(h: Seq<CheckinEvent>, e: CheckinEvent) -> Seq<CheckinEvent> {
    let p = h.push(e);
    if p.len() > HISTORY_LIMIT {
        p.drop_first()
    } else {
        p
    }
}

/// The sum of the hours of the remembered check-ins.
pub open spec fn hours_sum(h: Seq<CheckinEvent>) -> int
    decreases h.len(),
{
    if h.len() == 0 {
        0
    } else {
        hours_sum(h.drop_last()) + h.last().hour_of_day
    }
}

/// The average hour of the remembered check-ins, rounded down (noon with none).
pub open spec fn average_hour(h: Seq<CheckinEvent>) -> int {
    if h.len() == 0 {
        12
    } else {
        hours_sum(h) / (h.len() as int)
    }
}

/// The check-in interval as the lookout reads it, the same way the watch does (24 hours
/// when the text does not read).
pub open spec fn lookout_interval_ms(w: WatchConfig) -> int {
    match duration_ms(w.interval@, true) {
        Some(v) => v,
        None => 24 * MS_PER_HOUR,
    }
}

/// Points for the hour of day: 2 if more than 8 hours off the average, 1 if more than 4.
pub open spec fn hour_points(h: Seq<CheckinEvent>, ts: int) -> int {
    let diff = hour_of_day(ts) - average_hour(h);
    let off = if diff < 0 { -diff } else { diff };
    if off > 8 {
        2
    } else if off > 4 {
        1
    } else {
        0
    }
}

/// One point for checking in more than 12 whole hours before the next check-in is due.
pub open spec fn early_points(w: WatchConfig, ts: int) -> int {
    match w.last_checkin {
        Some(last) => if whole_hours(last + lookout_interval_ms(w) - ts) > 12 {
            1
        } else {
            0
        },
        None => 0,
    }
}

/// The level for an anomaly score.
pub open spec fn level_for_score(score: int) -> SuspicionLevel {
    if score <= 0 {
        SuspicionLevel::Normal
    } else if score == 1 {
        SuspicionLevel::Unusual
    } else if score == 2 {
        SuspicionLevel::Suspicious
    } else {
        SuspicionLevel::HighlyAnomalous
    }
}

/// How a check-in at `ts` is judged: Normal with fewer than five remembered check-ins;
/// otherwise by the hour points plus the early points.
pub open spec fn suspicion_spec(h: Seq<CheckinEvent>, w: WatchConfig, ts: int) -> SuspicionLevel {
    if h.len() < 5 {
        SuspicionLevel::Normal
    } else {
        level_for_score(hour_points(h, ts) + early_points(w, ts))
    }
}

/// The settings for which judging a check-in does not panic: a readable interval, and the
/// last check-in plus the interval within `DateTime`'s range.
pub open spec fn analysis_defined(w: WatchConfig) -> bool {
    w.last_checkin matches Some(last) ==> {
        &&& valid_instant(last as int)
        &&& duration_text_ok(w.interval@, true)
        &&& valid_instant(last + lookout_interval_ms(w))
    }
}

/// The lookout: remembers recent check-ins and judges new ones against them.
pub struct Lookout {
    config: Config,
    checkin_history: Vec<CheckinEvent>,
}

impl Lookout {
    /// The configuration the lookout reads.
    pub closed spec fn spec_config(&self) -> Config {
        self.config
    }

    /// The remembered check-ins, oldest first.
    pub closed spec fn history(&self) -> Seq<CheckinEvent> {
        self.checkin_history@
    }

    /// At most the limit of remembered check-ins, each with an hour of day below 24.
    pub open spec fn well_formed(&self) -> bool {
        &&& self.history().len() <= HISTORY_LIMIT
        &&& forall|i: int|
            0 <= i < self.history().len() ==> #[trigger] self.history()[i].hour_of_day < 24
    }

    /// A lookout with no history yet.
    pub fn new(config: Config) -> (l: Lookout)
        ensures
            l.spec_config() == config,
            l.history() == Seq::<CheckinEvent>::empty(),
            l.well_formed(),
    {
        Lookout { config, checkin_history: Vec::new() }
    }

    /// Gives back the configuration the lookout was made with.
    pub fn into_config(self) -> (c: Config)
        ensures
            c == self.spec_config(),
    {
        self.config
    }

    /// The remembered check-ins, oldest first.
    pub fn checkin_history(&self) -> (r: &[CheckinEvent])
        ensures
            r@ == self.history(),
    {
        self.checkin_history.as_slice()
    }

    /// Records a check-in at instant `ts`, keeping the last 30.
    pub fn record_checkin(&mut self, ts: i64)
        requires
            old(self).well_formed(),
            valid_instant(ts as int),
        ensures
            final(self).well_formed(),
            final(self).history() == recorded(old(self).history(), event_for(ts)),
            final(self).spec_config() == old(self).spec_config(),
    {
        let event = CheckinEvent {
            timestamp: ts,
            hour_of_day: instant_hour(ts),
            day_of_week: instant_weekday(ts),
        };
        self.checkin_history.push(event);
        if self.checkin_history.len() > HISTORY_LIMIT {
            self.checkin_history.remove(0);
        }
        proof {
            let p = old(self).history().push(event);
            if p.len() > HISTORY_LIMIT {
                assert(self.history() =~= p.drop_first());
            }
        }
    }

    /// Judges a check-in at instant `ts` against the remembered ones.
    pub fn analyze_checkin(&self, ts: i64) -> (r: SuspicionLevel)
        requires
            self.well_formed(),
            valid_instant(ts as int),
            self.history().len() >= 5 ==> analysis_defined(self.spec_config().watch),
        ensures
            r == suspicion_spec(self.history(), self.spec_config().watch, ts as int),
    {
        if self.checkin_history.len() < 5 {
            return SuspicionLevel::Normal;
        }
        let mut score: u32 = 0;
        let current_hour = instant_hour(ts);
        let avg_hour = self.average_checkin_hour();
        let diff: i64 = current_hour as i64 - avg_hour as i64;
        let off: i64 = if diff < 0 { -diff } else { diff };
        if off > 8 {
            score = score + 2;
        } else if off > 4 {
            score = score + 1;
        }
        if let Some(expected) = self.expected_next_checkin() {
            let time_until = expected - ts;
            if span_whole_hours(time_until) > 12 {
                score = score + 1;
            }
        }
        if score == 0 {
            SuspicionLevel::Normal
        } else if score == 1 {
            SuspicionLevel::Unusual
        } else if score == 2 {
            SuspicionLevel::Suspicious
        } else {
            SuspicionLevel::HighlyAnomalous
        }
    }

    /// The average hour of day of the remembered check-ins (noon with none).
    fn average_checkin_hour(&self) -> (r: u32)
        requires
            self.well_formed(),
        ensures
            r as int == average_hour(self.history()),
    {
        let n = self.checkin_history.len();
        if n == 0 {
            return 12;
        }
        let mut sum: u32 = 0;
        let mut i: usize = 0;
        while i < n
            invariant
                self.well_formed(),
                n == self.history().len(),
                i <= n,
                sum as int == hours_sum(self.history().subrange(0, i as int)),
                sum <= 24 * i,
            decreases n - i,
        {
            let h = self.checkin_history[i].hour_of_day;
            proof {
                let s = self.history().subrange(0, i + 1);
                assert(s.drop_last() =~= self.history().subrange(0, i as int));
            }
            sum = sum + h;
            i = i + 1;
        }
        assert(self.history().subrange(0, n as int) =~= self.history());
        sum / (n as u32)
    }

    /// When the next check-in is due: the last one plus the interval (24 hours by default).
    fn expected_next_checkin(&self) -> (r: Option<i64>)
        requires
            analysis_defined(self.spec_config().watch),
        ensures
            match self.spec_config().watch.last_checkin {
                Some(last) => r == Some((last + lookout_interval_ms(self.spec_config().watch)) as i64),
                None => r is None,
            },
    {
        match self.config.watch.last_checkin {
            Some(last) => {
                let interval = match read_duration(self.config.watch.interval.as_str(), true) {
                    Some(v) => v,
                    None => 24 * MS_PER_HOUR,
                };
                Some(last + interval)
            },
            None => None,
        }
    }
}

/// The judgement of a level, as text.
pub fn suspicion_text(level: SuspicionLevel) -> (r: &'static str)
    ensures
        r@ == suspicion_label(level),
{
    match level {
        SuspicionLevel::Normal => "Normal",
        SuspicionLevel::Unusual => "Unusual timing",
        SuspicionLevel::Suspicious => "Suspicious pattern",
        SuspicionLevel::HighlyAnomalous => "HIGHLY ANOMALOUS",
    }
}

/// The text of each level.
pub open spec fn suspicion_label(level: SuspicionLevel) -> Seq<char> {
    match level {
        SuspicionLevel::Normal => "Normal"@,
        SuspicionLevel::Unusual => "Unusual timing"@,
        SuspicionLevel::Suspicious => "Suspicious pattern"@,
        SuspicionLevel::HighlyAnomalous => "HIGHLY ANOMALOUS"@,
    }
}

/// The lookout never remembers more than its limit, and the newest check-in is the last
/// one remembered.
pub proof fn lemma_history_keeps_latest(h: Seq<CheckinEvent>, e: CheckinEvent)
    requires
        h.len() <= HISTORY_LIMIT,
    ensures
        recorded(h, e).len() <= HISTORY_LIMIT,
        recorded(h, e).len() > 0,
        recorded(h, e).last() == e,
{
}

/// With fewer than five remembered check-ins, every check-in is judged Normal.
pub proof fn lemma_short_history_is_normal(h: Seq<CheckinEvent>, w: WatchConfig, ts: int)
    requires
        h.len() < 5,
    ensures
        suspicion_spec(h, w, ts) == SuspicionLevel::Normal,
{
}

/// The lookout reads the check-in interval exactly as the watch does, minutes included.
pub proof fn lemma_lookout_reads_like_watch(w: WatchConfig)
    ensures
        lookout_interval_ms(w) == interval_ms(w),
{
}

/// Once five check-ins are remembered, a check-in more than four hours off the usual hour
/// is never judged Normal.
pub proof fn lemma_odd_hour_is_noticed(h: Seq<CheckinEvent>, w: WatchConfig, ts: int)
    requires
        h.len() >= 5,
        hour_of_day(ts) - average_hour(h) > 4 || average_hour(h) - hour_of_day(ts) > 4,
    ensures
        suspicion_spec(h, w, ts) != SuspicionLevel::Normal,
{
}

/// Only a check-in well ahead of its due time earns the early point: a point means at least
/// 13 hours before the last check-in plus the interval, and a check-in that early always
/// earns it. A check-in at or after its due time never does.
pub proof fn lemma_early_point_only_when_early(w: WatchConfig, ts: int)
    ensures
        early_points(w, ts) == 0 || early_points(w, ts) == 1,
        early_points(w, ts) == 1 <==> (w.last_checkin matches Some(last) && last + lookout_interval_ms(w) - ts
            >= 13 * MS_PER_HOUR),
        (w.last_checkin matches Some(last) && ts >= last + lookout_interval_ms(w)) ==> early_points(w, ts) == 0,
{
    if let Some(last) = w.last_checkin {
        let d = last + lookout_interval_ms(w) - ts;
        if d >= 0 {
            let sec = d / 1000;
            assert(sec >= 46800 <==> d >= 46800000) by (nonlinear_arith)
                requires
                    sec == d / 1000,
                    d >= 0,
            ;
            assert(sec / 3600 > 12 <==> sec >= 46800) by (nonlinear_arith)
                requires
                    sec >= 0,
            ;
            assert(whole_hours(d) == sec / 3600);
        } else {
            let sec = (-d) / 1000;
            assert(sec >= 0) by (nonlinear_arith)
                requires
                    sec == (-d) / 1000,
                    d < 0,
            ;
            assert(whole_seconds(d) == -sec);
            assert(-((sec) / 3600) <= 0) by (nonlinear_arith)
                requires
                    sec >= 0,
            ;
            assert(whole_hours(d) == -(sec / 3600));
        }
    }
}

/// A check-in at the usual hour and not early is judged Normal, however late it is.
pub proof fn lemma_usual_hour_on_time_is_normal(h: Seq<CheckinEvent>, w: WatchConfig, ts: int)
    requires
        hour_points(h, ts) == 0,
        w.last_checkin matches Some(last) && ts >= last + lookout_interval_ms(w),
    ensures
        suspicion_spec(h, w, ts) == SuspicionLevel::Normal,
{
    lemma_early_point_only_when_early(w, ts);
}

/// Whether judging a check-in under these settings stays within range (see
/// `analysis_defined`).
pub fn analysis_is_defined(w: &WatchConfig) -> (r: bool)
    ensures
        r == analysis_defined(*w),
{
    match w.last_checkin {
        None => true,
        Some(last) => {
            if !(MIN_INSTANT_MS <= last && last <= MAX_INSTANT_MS) {
                return false;
            }
            if !duration_readable(w.interval.as_str(), true) {
                return false;
            }
            let interval = match read_duration(w.interval.as_str(), true) {
                Some(v) => v as i128,
                None => 24 * (MS_PER_HOUR as i128),
            };
            let due = last as i128 + interval;
            MIN_INSTANT_MS as i128 <= due && due <= MAX_INSTANT_MS as i128
        },
    }
}

/// What a check-in at a given suspicion level is remarked with, if anything.
pub open spec fn suspicion_remark(level: SuspicionLevel) -> Option<Seq<char>> {
    match level {
        SuspicionLevel::Normal => None,
        SuspicionLevel::Unusual => Some("Note: Unusual check-in timing detected."@),
        SuspicionLevel::Suspicious => Some("Warning: Suspicious check-in pattern."@),
        SuspicionLevel::HighlyAnomalous => Some("ALERT: Highly anomalous behavior detected!"@),
    }
}

/// The remark shown after an accepted check-in at a given suspicion level, if any.
pub fn suspicion_notice(level: SuspicionLevel) -> (r: Option<&'static str>)
    ensures
        match r {
            Some(t) => suspicion_remark(level) == Some(t@),
            None => suspicion_remark(level) is None,
        },
{
    match level {
        SuspicionLevel::Normal => None,
        SuspicionLevel::Unusual => Some("Note: Unusual check-in timing detected."),
        SuspicionLevel::Suspicious => Some("Warning: Suspicious check-in pattern."),
        SuspicionLevel::HighlyAnomalous => Some("ALERT: Highly anomalous behavior detected!"),
    }
}

} // verus!
