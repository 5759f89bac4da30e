use dead_reckoning::config::Config;
use dead_reckoning::lookout::SuspicionLevel;
use dead_reckoning::parley::{parley_at, parley_is_defined};
use dead_reckoning::watch::{CheckInResult, Watch, WatchStatus};

const HOUR: i64 = 3_600_000;

fn voyage(last: Option<i64>) -> Config {
    let mut c = Config::new_voyage("24h", "6h");
    Watch::set_phrases(&mut c, "safe", "duress");
    c.watch.last_checkin = last;
    c
}

#[test]
fn safe_phrase_records_the_check_in() {
    let p = parley_at(voyage(Some(0)), "Safe ", 20 * HOUR);
    assert_eq!(p.result, CheckInResult::Accepted);
    assert_eq!(p.suspicion, SuspicionLevel::Normal);
    assert_eq!(p.config.watch.last_checkin, Some(20 * HOUR));
    assert_eq!(Watch::new(p.config).status_at(20 * HOUR), WatchStatus::Secure);
}

#[test]
fn duress_resets_and_other_phrases_change_nothing() {
    let p = parley_at(voyage(Some(0)), "duress", 20 * HOUR);
    assert_eq!(p.result, CheckInResult::Duress);
    // the duress phrase resets the timer just like the safe one
    assert_eq!(p.config.watch.last_checkin, Some(20 * HOUR));
    assert_eq!(p.config.watch.checkin_history, vec![0, 20 * HOUR]);
    assert_eq!(Watch::new(p.config).status_at(20 * HOUR), WatchStatus::Secure);
    let p = parley_at(voyage(None), "nope", 20 * HOUR);
    assert_eq!(p.result, CheckInResult::Invalid);
    assert_eq!(p.config.watch.last_checkin, None);
}

const DAY: i64 = 24 * HOUR;

fn habitual_voyage() -> Config {
    let mut c = voyage(Some(5 * DAY + 9 * HOUR));
    c.watch.checkin_history = (1..=5).map(|d| d * DAY + 9 * HOUR).collect();
    c
}

#[test]
fn three_am_against_a_nine_am_habit_is_unusual() {
    let c = habitual_voyage();
    assert!(parley_is_defined(&c.watch));
    let p = parley_at(c, "safe", 6 * DAY + 3 * HOUR);
    assert_eq!(p.result, CheckInResult::Accepted);
    assert_eq!(p.suspicion, SuspicionLevel::Unusual);
    assert_eq!(p.config.watch.checkin_history.len(), 6);
    assert_eq!(p.config.watch.checkin_history[5], 6 * DAY + 3 * HOUR);
    let p = parley_at(habitual_voyage(), "safe", 6 * DAY + 9 * HOUR);
    assert_eq!(p.suspicion, SuspicionLevel::Normal);
}

#[test]
fn history_keeps_the_newest_thirty() {
    let mut c = voyage(Some(40 * DAY));
    c.watch.checkin_history = (1..=40).map(|d| d * DAY).collect();
    let p = parley_at(c, "safe", 41 * DAY);
    assert_eq!(p.config.watch.checkin_history.len(), 30);
    assert_eq!(p.config.watch.checkin_history[0], 12 * DAY);
    assert_eq!(p.config.watch.checkin_history[29], 41 * DAY);
}

#[test]
fn duress_calls_for_a_silent_alert() {
    let p = parley_at(voyage(Some(0)), "Duress", HOUR);
    assert_eq!(p.result, CheckInResult::Duress);
    let s = p.alert.unwrap();
    assert!(s.is_duress);
    assert_eq!(s.message, "DURESS SIGNAL - Captain may be compromised");
    assert!(parley_at(voyage(Some(0)), "safe", HOUR).alert.is_none());
    assert!(parley_at(voyage(Some(0)), "nope", HOUR).alert.is_none());
}
