use dead_reckoning::config::Config;
use dead_reckoning::watch::{
    duration_readable, expiry_is_defined, format_duration, hash_phrase, parse_duration, status_headline,
    status_is_defined, CheckInResult, Watch, WatchStatus,
};

const HOUR: i64 = 3_600_000;

fn watch_with_phrases(last: Option<i64>) -> Watch {
    let mut config = Config::new_voyage("24h", "6h");
    Watch::set_phrases(&mut config, "The Eagle Has Landed", "everything is fine");
    config.watch.last_checkin = last;
    Watch::new(config)
}

#[test]
fn phrases_hash_alike_ignoring_case_and_padding() {
    let h = hash_phrase("hello world");
    assert_eq!(h, "b94d27b9934d3e08a52e52d7da7dabfac484efe37a5380ee9088f7ace2efcde9");
    assert_eq!(hash_phrase("  Hello World \n"), h);
    assert_ne!(hash_phrase("hello  world"), h);
}

#[test]
fn set_phrases_stores_hashes() {
    let mut config = Config::default();
    Watch::set_phrases(&mut config, "safe", "duress");
    assert_eq!(config.watch.safe_word_hash, hash_phrase("safe"));
    assert_eq!(config.watch.duress_word_hash, hash_phrase("duress"));
    assert_eq!(config.watch.safe_word_hash.len(), 64);
}

#[test]
fn check_in_outcomes() {
    let mut w = watch_with_phrases(None);
    assert_eq!(w.check_in_at("wrong", 5), CheckInResult::Invalid);
    assert_eq!(w.config().watch.last_checkin, None);
    assert_eq!(w.check_in_at("Everything Is Fine", 5), CheckInResult::Duress);
    // the duress phrase resets the timer too
    assert_eq!(w.config().watch.last_checkin, Some(5));
    assert_eq!(w.check_in_at("  the eagle has landed ", 7 * HOUR), CheckInResult::Accepted);
    assert_eq!(w.config().watch.last_checkin, Some(7 * HOUR));
}

#[test]
fn duress_wins_when_phrases_coincide() {
    let mut config = Config::default();
    Watch::set_phrases(&mut config, "same", "same");
    let mut w = Watch::new(config);
    assert_eq!(w.check_in_at("same", 1), CheckInResult::Duress);
    assert_eq!(w.config().watch.last_checkin, Some(1));
}

#[test]
fn status_follows_the_clock() {
    let w = watch_with_phrases(Some(0));
    assert_eq!(w.status_at(21 * HOUR), WatchStatus::Secure);
    assert_eq!(w.status_at(22 * HOUR), WatchStatus::Warning);
    assert_eq!(w.status_at(24 * HOUR), WatchStatus::Critical);
    assert_eq!(w.status_at(30 * HOUR - 1), WatchStatus::Critical);
    assert_eq!(w.status_at(30 * HOUR), WatchStatus::Expired);
    let never = watch_with_phrases(None);
    assert_eq!(never.status_at(0), WatchStatus::Expired);
}

#[test]
fn time_left() {
    let w = watch_with_phrases(Some(0));
    assert_eq!(w.time_until_expiry_at(10 * HOUR), Some(20 * HOUR));
    assert_eq!(w.time_until_expiry_at(30 * HOUR), None);
    let never = watch_with_phrases(None);
    assert_eq!(never.time_until_expiry_at(0), None);
}

#[test]
fn durations() {
    assert_eq!(parse_duration("24h"), Some(24 * HOUR));
    assert_eq!(parse_duration(" 7D "), Some(7 * 24 * HOUR));
    assert_eq!(parse_duration("30m"), Some(30 * 60_000));
    assert_eq!(parse_duration("-2h"), Some(-2 * HOUR));
    assert_eq!(parse_duration("abc"), None);
    assert_eq!(parse_duration("h"), None);
    assert_eq!(parse_duration("12"), None);
    assert!(duration_readable("24h", true));
    assert!(!duration_readable("9999999999999999d", true));
    assert!(duration_readable("nonsense", true));
}

#[test]
fn defined_settings() {
    let w = watch_with_phrases(Some(0));
    assert!(status_is_defined(&w.config().watch));
    assert!(expiry_is_defined(&w.config().watch));
    let mut config = Config::new_voyage("9999999999999999d", "6h");
    config.watch.last_checkin = Some(0);
    assert!(!status_is_defined(&config.watch));
    config.watch.last_checkin = None;
    assert!(status_is_defined(&config.watch));
}

#[test]
fn formatting_durations() {
    assert_eq!(format_duration(90_061_000), "1d 1h");
    assert_eq!(format_duration(3_900_000), "1h 5m");
    assert_eq!(format_duration(59_000), "0m");
    assert_eq!(format_duration(-500), "0m");
    assert_eq!(format_duration(-1_000), "expired");
}

#[test]
fn headlines() {
    assert_eq!(status_headline(WatchStatus::Secure), "Status: SECURE");
    assert_eq!(status_headline(WatchStatus::Warning), "Status: CHECK-IN DUE SOON");
    assert_eq!(status_headline(WatchStatus::Critical), "Status: CRITICAL - Grace period active!");
    assert_eq!(status_headline(WatchStatus::Expired), "Status: EXPIRED - Fleet notified!");
}
