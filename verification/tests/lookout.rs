use dead_reckoning::config::Config;
use dead_reckoning::lookout::{analysis_is_defined, suspicion_notice, suspicion_text, Lookout, SuspicionLevel};

const HOUR: i64 = 3_600_000;
const DAY: i64 = 24 * HOUR;

fn lookout_at_nine(last: Option<i64>) -> Lookout {
    let mut config = Config::new_voyage("24h", "6h");
    config.watch.last_checkin = last;
    let mut l = Lookout::new(config);
    for d in 1..=5 {
        l.record_checkin(d * DAY + 9 * HOUR);
    }
    l
}

#[test]
fn short_history_is_normal() {
    let mut l = Lookout::new(Config::default());
    for d in 1..=4 {
        l.record_checkin(d * DAY + 9 * HOUR);
    }
    assert_eq!(l.analyze_checkin(10 * DAY + 21 * HOUR), SuspicionLevel::Normal);
}

#[test]
fn events_carry_hour_and_weekday() {
    let mut l = Lookout::new(Config::default());
    // 1970-01-05 was a Monday
    l.record_checkin(4 * DAY + 13 * HOUR);
    let e = l.checkin_history()[0];
    assert_eq!(e.hour_of_day, 13);
    assert_eq!(e.day_of_week, 0);
    assert_eq!(e.timestamp, 4 * DAY + 13 * HOUR);
}

#[test]
fn odd_hours_raise_suspicion() {
    let l = lookout_at_nine(None);
    assert_eq!(l.analyze_checkin(6 * DAY + 9 * HOUR), SuspicionLevel::Normal);
    assert_eq!(l.analyze_checkin(6 * DAY + 15 * HOUR), SuspicionLevel::Unusual);
    assert_eq!(l.analyze_checkin(6 * DAY + 21 * HOUR), SuspicionLevel::Suspicious);
}

#[test]
fn early_check_in_adds_a_point() {
    let last = 5 * DAY + 9 * HOUR;
    let l = lookout_at_nine(Some(last));
    // due at day 6, 09:00; 13 hours early and 11 hours off the usual hour
    assert_eq!(l.analyze_checkin(5 * DAY + 20 * HOUR), SuspicionLevel::HighlyAnomalous);
    // exactly 12 hours early does not count
    assert_eq!(l.analyze_checkin(5 * DAY + 21 * HOUR), SuspicionLevel::Suspicious);
}

#[test]
fn history_keeps_the_latest_thirty() {
    let mut l = Lookout::new(Config::default());
    for d in 0..31 {
        l.record_checkin(d * DAY);
    }
    assert_eq!(l.checkin_history().len(), 30);
    assert_eq!(l.checkin_history()[0].timestamp, DAY);
    assert_eq!(l.checkin_history()[29].timestamp, 30 * DAY);
}

#[test]
fn texts_and_notices() {
    assert_eq!(suspicion_text(SuspicionLevel::HighlyAnomalous), "HIGHLY ANOMALOUS");
    assert_eq!(suspicion_text(SuspicionLevel::Unusual), "Unusual timing");
    assert_eq!(suspicion_notice(SuspicionLevel::Normal), None);
    assert_eq!(suspicion_notice(SuspicionLevel::Suspicious), Some("Warning: Suspicious check-in pattern."));
}

#[test]
fn analysis_range() {
    let mut c = Config::default();
    assert!(analysis_is_defined(&c.watch));
    c.watch.last_checkin = Some(0);
    assert!(analysis_is_defined(&c.watch));
    c.watch.last_checkin = Some(8_210_266_876_799_999);
    assert!(!analysis_is_defined(&c.watch));
}

#[test]
fn minutes_interval_is_read_like_the_watch() {
    let last = 5 * DAY + 9 * HOUR;
    let mut config = Config::new_voyage("30m", "6h");
    config.watch.last_checkin = Some(last);
    assert!(analysis_is_defined(&config.watch));
    let mut l = Lookout::new(config);
    for d in 1..=5 {
        l.record_checkin(d * DAY + 9 * HOUR);
    }
    // due half an hour after the last check-in: on time, nothing early
    assert_eq!(l.analyze_checkin(last + 20 * 60_000), SuspicionLevel::Normal);
}
