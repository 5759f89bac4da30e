use dead_reckoning::daemon::{expiry_signal, next_pause, Daemon, DaemonAction};
use dead_reckoning::watch::WatchStatus;

#[test]
fn fresh_daemon() {
    let d = Daemon::new("voyage.toml", 60);
    assert_eq!(d.config_path(), "voyage.toml");
    assert_eq!(d.check_interval_secs(), 60);
    assert!(!d.alert_sent());
}

#[test]
fn alerts_go_out_once_per_expiry() {
    let mut d = Daemon::new("v.toml", 1);
    assert_eq!(d.on_status(WatchStatus::Warning), DaemonAction::ReportWarning);
    assert_eq!(d.on_status(WatchStatus::Critical), DaemonAction::ReportCritical);
    assert_eq!(d.on_status(WatchStatus::Expired), DaemonAction::SendAlerts);
    d.mark_alerted();
    assert_eq!(d.on_status(WatchStatus::Expired), DaemonAction::AlreadyAlerted);
    assert_eq!(d.on_status(WatchStatus::Critical), DaemonAction::ReportCritical);
    assert_eq!(d.on_status(WatchStatus::Expired), DaemonAction::AlreadyAlerted);
    assert_eq!(d.on_status(WatchStatus::Secure), DaemonAction::ReportSecure);
    assert!(!d.alert_sent());
    assert_eq!(d.on_status(WatchStatus::Expired), DaemonAction::SendAlerts);
}

#[test]
fn failed_sending_is_retried() {
    let mut d = Daemon::new("v.toml", 1);
    assert_eq!(d.on_status(WatchStatus::Expired), DaemonAction::SendAlerts);
    // not marked: the next look asks again
    assert_eq!(d.on_status(WatchStatus::Expired), DaemonAction::SendAlerts);
}

#[test]
fn pauses_in_one_second_slices() {
    assert_eq!(next_pause(5), (1, 4));
    assert_eq!(next_pause(1), (1, 0));
    assert_eq!(next_pause(0), (0, 0));
}

#[test]
fn the_expiry_signal() {
    let s = expiry_signal();
    assert_eq!(s.message, "DEAD RECKONING: Watch has expired. Captain has not checked in. This is not a drill.");
    assert!(!s.is_duress);
    assert!(!s.cargo_attached);
}
