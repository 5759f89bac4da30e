//! A parley: one check-in as the command line makes it. The timing is judged first,
//! against the recent check-ins, then the phrase is checked. Either phrase records the
//! check-in and resets the timer; the duress phrase also calls for a silent distress signal.

use vstd::prelude::*;
use crate::clock::valid_instant;
use crate::config::{Config, WatchConfig};
use crate::fleet::{manual_signal, DistressSignal};
use crate::lookout::{
    analysis_defined, event_for, recorded, suspicion_spec, CheckinEvent, Lookout, SuspicionLevel, HISTORY_LIMIT,
};
use crate::watch::{
    check_in_outcome, interval_ms, phrase_hash, status_at_spec, warning_window_ms, CheckInResult, Watch, WatchStatus,
};

verus! {

/// The outcome of a parley.
pub struct Parley {
    /// What the phrase was taken for.
    pub result: CheckInResult,
    /// How the timing of the check-in was judged.
    pub suspicion: SuspicionLevel,
    /// The settings afterwards: the check-in recorded when the safe or the duress phrase
    /// was given.
    pub config: Config,
    /// The silent distress signal to send, after the duress phrase.
    pub alert: Option<DistressSignal>,
}

/// The check-ins a parley remembers: the stored history, or, when none is stored,
/// the last check-in on record.
pub open spec fn remembered(w: WatchConfig) -> Seq<i64> {
    if w.checkin_history@.len() > 0 {
        w.checkin_history@
    } else {
        match w.last_checkin {
            Some(last) => seq![last],
            None => Seq::empty(),
        }
    }
}

/// What the lookout holds after recording instants one after the other.
pub open spec fn history_events(ts: Seq<i64>) -> Seq<CheckinEvent>
    decreases ts.len(),
{
    if ts.len() == 0 {
        Seq::empty()
    } else {
        recorded(history_events(ts.drop_last()), event_for(ts.last()))
    }
}

/// The history kept after a check-in at `now`: the newest thirty.
pub open spec fn kept_history(h: Seq<i64>, now: i64) -> Seq<i64> {
    let p = h.push(now);
    if p.len() > HISTORY_LIMIT {
        p.subrange(p.len() - HISTORY_LIMIT, p.len() as int)
    } else {
        p
    }
}

/// The settings a parley needs to stay within the clock's range: every remembered instant
/// valid, and, once there are five to judge against, the interval readable.
pub open spec fn parley_defined(w: WatchConfig) -> bool {
    &&& forall|i: int| 0 <= i < remembered(w).len() ==> valid_instant(#[trigger] remembered(w)[i] as int)
    &&& remembered(w).len() >= 5 ==> analysis_defined(w)
}

/// The lookout remembers the newest thirty of the instants it recorded.
proof fn lemma_history_events_len(ts: Seq<i64>)
    ensures
        history_events(ts).len() == if ts.len() > HISTORY_LIMIT { HISTORY_LIMIT as int } else { ts.len() as int },
    decreases ts.len(),
{
    if ts.len() > 0 {
        lemma_history_events_len(ts.drop_last());
    }
}

/// Whether a parley under these settings stays within the clock's range.
pub fn parley_is_defined(w: &WatchConfig) -> (r: bool)
    ensures
        r == parley_defined(*w),
{
    let rem = remembered_instants(w);
    let mut i: usize = 0;
    while i < rem.len()
        invariant
            rem@ == remembered(*w),
            i <= rem@.len(),
            forall|j: int| 0 <= j < i ==> valid_instant(#[trigger] rem@[j] as int),
        decreases rem@.len() - i,
    {
        if !(crate::clock::MIN_INSTANT_MS <= rem[i] && rem[i] <= crate::clock::MAX_INSTANT_MS) {
            return false;
        }
        i = i + 1;
    }
    rem.len() < 5 || crate::lookout::analysis_is_defined(w)
}

/// The remembered instants, as a vector.
fn remembered_instants(w: &WatchConfig) -> (r: Vec<i64>)
    ensures
        r@ == remembered(*w),
{
    if w.checkin_history.len() > 0 {
        let r = w.checkin_history.clone();
        assert(r@ =~= w.checkin_history@);
        r
    } else {
        match w.last_checkin {
            Some(last) => {
                let r = vec![last];
                assert(r@ =~= seq![last]);
                r
            },
            None => Vec::new(),
        }
    }
}

/// The history with `now` added, keeping the newest thirty.
fn keep_history(h: Vec<i64>, now: i64) -> (r: Vec<i64>)
    ensures
        r@ == kept_history(h@, now),
{
    let ghost p = h@.push(now);
    let mut v = h;
    v.push(now);
    let ghost mut k: int = 0;
    while v.len() > HISTORY_LIMIT
        invariant
            0 <= k <= p.len(),
            v@ == p.subrange(k, p.len() as int),
            p.len() > HISTORY_LIMIT ==> k <= p.len() - HISTORY_LIMIT,
            p.len() <= HISTORY_LIMIT ==> k == 0,
        decreases v@.len(),
    {
        v.remove(0);
        proof {
            k = k + 1;
        }
        assert(v@ =~= p.subrange(k, p.len() as int));
    }
    assert(p.subrange(0, p.len() as int) =~= p);
    v
}

/// Parleys at instant `now`: judges the timing against the remembered check-ins, then
/// checks the phrase in. The safe and the duress phrase both record `now` as the last
/// check-in and in the history; the duress phrase also calls for a silent duress signal.
/// Any other phrase changes nothing.
pub fn parley_at(config: Config, phrase: &str, now: i64) -> (r: Parley)
    requires
        valid_instant(now as int),
        parley_defined(config.watch),
    ensures
        r.result == check_in_outcome(config.watch, phrase@),
        r.suspicion == suspicion_spec(history_events(remembered(config.watch)), config.watch, now as int),
        r.config.watch.last_checkin == (if r.result != CheckInResult::Invalid {
            Some(now)
        } else {
            config.watch.last_checkin
        }),
        r.config.watch.checkin_history@ == (if r.result != CheckInResult::Invalid {
            kept_history(remembered(config.watch), now)
        } else {
            config.watch.checkin_history@
        }),
        r.config.watch.interval == config.watch.interval,
        r.config.watch.grace_period == config.watch.grace_period,
        r.config.watch.safe_word_hash == config.watch.safe_word_hash,
        r.config.watch.duress_word_hash == config.watch.duress_word_hash,
        r.config.fleet == config.fleet,
        r.config.smtp == config.smtp,
        r.config.cargo == config.cargo,
        r.config.scuttle == config.scuttle,
        r.alert is Some <==> r.result == CheckInResult::Duress,
        r.alert matches Some(s) ==> s.is_duress && !s.cargo_attached && s.message@
            == "DURESS SIGNAL - Captain may be compromised"@,
{
    let rem = remembered_instants(&config.watch);
    let ghost c0 = config;
    let mut lookout = Lookout::new(config);
    let mut i: usize = 0;
    while i < rem.len()
        invariant
            lookout.spec_config() == c0,
            rem@ == remembered(c0.watch),
            parley_defined(c0.watch),
            lookout.well_formed(),
            i <= rem@.len(),
            lookout.history() == history_events(rem@.subrange(0, i as int)),
        decreases rem@.len() - i,
    {
        assert(rem@.subrange(0, i + 1).drop_last() =~= rem@.subrange(0, i as int));
        lookout.record_checkin(rem[i]);
        i = i + 1;
    }
    assert(rem@.subrange(0, rem@.len() as int) =~= rem@);
    proof {
        lemma_history_events_len(rem@);
    }
    let suspicion = lookout.analyze_checkin(now);
    let mut watch = Watch::new(lookout.into_config());
    let result = watch.check_in_at(phrase, now);
    let mut after = watch.into_config();
    let alert = match result {
        CheckInResult::Accepted => {
            after.watch.checkin_history = keep_history(rem, now);
            None
        },
        CheckInResult::Duress => {
            after.watch.checkin_history = keep_history(rem, now);
            Some(manual_signal(None, true))
        },
        CheckInResult::Invalid => None,
    };
    Parley { result, suspicion, config: after, alert }
}

/// A parley with the safe phrase (distinct from the duress phrase) leaves the watch Secure
/// at that instant, when the interval is longer than the two-hour warning window.
pub proof fn lemma_safe_parley_secures(w: WatchConfig, safe: Seq<char>, now: i64)
    requires
        w.safe_word_hash@ == phrase_hash(safe),
        w.duress_word_hash@ != phrase_hash(safe),
        w.last_checkin == Some(now),
        interval_ms(w) > warning_window_ms(),
    ensures
        status_at_spec(w, now as int) == WatchStatus::Secure,
{
}

} // verus!
