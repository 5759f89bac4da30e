//! The daemon: at each periodic look at the watch it decides what to report and whether
//! the fleet must be alerted. Loading the settings, printing, sending and sleeping happen
//! outside the library, which hands each status in and carries out the action it gets back.

use vstd::prelude::*;
use crate::fleet::DistressSignal;
use crate::watch::WatchStatus;

verus! {

/// What the daemon does after one look at the watch.
#[derive(Debug, Clone, Copy, PartialEq, Eq, Structural)]
pub enum DaemonAction {
    /// All is well: report it (the alert flag is cleared).
    ReportSecure,
    /// The check-in is due soon: report it.
    ReportWarning,
    /// The grace period is running: report it.
    ReportCritical,
    /// The watch expired and no alert has gone out: send the distress signal.
    SendAlerts,
    /// The watch expired and the alerts already went out: do not send them again.
    AlreadyAlerted,
}

/// The action for a status, given whether the alerts already went out.
pub open spec fn action_for(alert_sent: bool, status: WatchStatus) -> DaemonAction {
    match status {
        WatchStatus::Secure => DaemonAction::ReportSecure,
        WatchStatus::Warning => DaemonAction::ReportWarning,
        WatchStatus::Critical => DaemonAction::ReportCritical,
        WatchStatus::Expired => if alert_sent {
            DaemonAction::AlreadyAlerted
        } else {
            DaemonAction::SendAlerts
        },
    }
}

/// The alert flag after a look at the watch: cleared by Secure, otherwise kept.
pub open spec fn flag_after_status(alert_sent: bool, status: WatchStatus) -> bool {
    if status == WatchStatus::Secure {
        false
    } else {
        alert_sent
    }
}

/// The alert flag after a look at the watch and, when the action was to send, the alerts
/// going out.
pub open spec fn flag_after_round(alert_sent: bool, status: WatchStatus) -> bool {
    if action_for(alert_sent, status) == DaemonAction::SendAlerts {
        true
    } else {
        flag_after_status(alert_sent, status)
    }
}

/// The actions taken over a run of statuses, starting from the given flag, with the alerts
/// going out each time they are to be sent.
pub open spec fn actions_over(alert_sent: bool, statuses: Seq<WatchStatus>) -> Seq<DaemonAction>
    decreases statuses.len(),
{
    if statuses.len() == 0 {
        Seq::empty()
    } else {
        seq![action_for(alert_sent, statuses[0])] + actions_over(
            flag_after_round(alert_sent, statuses[0]),
            statuses.drop_first(),
        )
    }
}

/// The background watchman: where the settings live, how often to look, and whether the
/// alerts for the current expiry already went out.
pub struct Daemon {
    config_path: String,
    check_interval_secs: u64,
    alert_sent: bool,
}

impl Daemon {
    /// The path of the settings file the daemon reads at each look.
    pub closed spec fn spec_config_path(&self) -> Seq<char> {
        self.config_path@
    }

    /// The seconds between looks.
    pub closed spec fn spec_interval(&self) -> u64 {
        self.check_interval_secs
    }

    /// Whether the alerts for the current expiry went out.
    pub closed spec fn spec_alert_sent(&self) -> bool {
        self.alert_sent
    }

    /// A daemon over a settings file, looking every `check_interval_secs` seconds; no alert
    /// has gone out.
    pub fn new(config_path: &str, check_interval_secs: u64) -> (d: Daemon)
        ensures
            d.spec_config_path() == config_path@,
            d.spec_interval() == check_interval_secs,
            !d.spec_alert_sent(),
    {
        Daemon { config_path: String::from_str(config_path), check_interval_secs, alert_sent: false }
    }

    /// The path of the settings file.
    pub fn config_path(&self) -> (r: &str)
        ensures
            r@ == self.spec_config_path(),
    {
        self.config_path.as_str()
    }

    /// The seconds between looks.
    pub fn check_interval_secs(&self) -> (r: u64)
        ensures
            r == self.spec_interval(),
    {
        self.check_interval_secs
    }

    /// Whether the alerts for the current expiry went out.
    pub fn alert_sent(&self) -> (r: bool)
        ensures
            r == self.spec_alert_sent(),
    {
        self.alert_sent
    }

    /// Decides what to do about the status seen at a look. Secure clears the alert flag; an
    /// expiry asks for the alerts only when they have not gone out yet.
    pub fn on_status(&mut self, status: WatchStatus) -> (a: DaemonAction)
        ensures
            a == action_for(old(self).spec_alert_sent(), status),
            final(self).spec_alert_sent() == flag_after_status(old(self).spec_alert_sent(), status),
            final(self).spec_config_path() == old(self).spec_config_path(),
            final(self).spec_interval() == old(self).spec_interval(),
    {
        match status {
            WatchStatus::Secure => {
                self.alert_sent = false;
                DaemonAction::ReportSecure
            },
            WatchStatus::Warning => DaemonAction::ReportWarning,
            WatchStatus::Critical => DaemonAction::ReportCritical,
            WatchStatus::Expired => if self.alert_sent {
                DaemonAction::AlreadyAlerted
            } else {
                DaemonAction::SendAlerts
            },
        }
    }

    /// Records that the alerts went out, so that the same expiry does not send them again.
    pub fn mark_alerted(&mut self)
        ensures
            final(self).spec_alert_sent(),
            final(self).spec_config_path() == old(self).spec_config_path(),
            final(self).spec_interval() == old(self).spec_interval(),
    {
        self.alert_sent = true;
    }
}

/// The distress signal the daemon sends when the watch expires.
pub fn expiry_signal() -> (s: DistressSignal)
    ensures
        s.message@ == "DEAD RECKONING: Watch has expired. Captain has not checked in. This is not a drill."@,
        !s.cargo_attached,
        !s.is_duress,
{
    DistressSignal {
        message: String::from_str(
            "DEAD RECKONING: Watch has expired. Captain has not checked in. This is not a drill.",
        ),
        cargo_attached: false,
        is_duress: false,
    }
}

/// The next slice of a pause between looks: at most one second, so that a stop request is
/// noticed promptly. Returns the slice and what remains after it.
pub fn next_pause(remaining_secs: u64) -> (r: (u64, u64))
    ensures
        r.0 == (if remaining_secs < 1 { remaining_secs } else { 1 }),
        r.1 == remaining_secs - r.0,
{
    let slice = if remaining_secs < 1 { remaining_secs } else { 1 };
    (slice, remaining_secs - slice)
}

/// There is one action per look.
pub proof fn lemma_actions_len(alert_sent: bool, statuses: Seq<WatchStatus>)
    ensures
        actions_over(alert_sent, statuses).len() == statuses.len(),
    decreases statuses.len(),
{
    if statuses.len() > 0 {
        lemma_actions_len(flag_after_round(alert_sent, statuses[0]), statuses.drop_first());
    }
}

/// A look that sends the alerts saw the watch expired.
pub proof fn lemma_send_means_expired(alert_sent: bool, statuses: Seq<WatchStatus>, m: int)
    requires
        0 <= m < statuses.len(),
        actions_over(alert_sent, statuses)[m] == DaemonAction::SendAlerts,
    ensures
        statuses[m] == WatchStatus::Expired,
    decreases statuses.len(),
{
    lemma_actions_len(alert_sent, statuses);
    if m > 0 {
        let next = flag_after_round(alert_sent, statuses[0]);
        lemma_actions_len(next, statuses.drop_first());
        assert(actions_over(alert_sent, statuses)[m] == actions_over(next, statuses.drop_first())[m - 1]);
        lemma_send_means_expired(next, statuses.drop_first(), m - 1);
    }
}

/// With the alerts already out, no look before the next Secure asks to send them.
pub proof fn lemma_no_resend_before_secure(statuses: Seq<WatchStatus>, j: int)
    requires
        0 <= j <= statuses.len(),
        forall|k: int| 0 <= k < j ==> statuses[k] != WatchStatus::Secure,
    ensures
        forall|m: int| 0 <= m < j ==> #[trigger] actions_over(true, statuses)[m] != DaemonAction::SendAlerts,
    decreases statuses.len(),
{
    lemma_actions_len(true, statuses);
    if j > 0 {
        let rest = statuses.drop_first();
        assert(flag_after_round(true, statuses[0]));
        lemma_actions_len(true, rest);
        lemma_no_resend_before_secure(rest, j - 1);
        assert forall|m: int| 0 <= m < j implies #[trigger] actions_over(true, statuses)[m]
            != DaemonAction::SendAlerts by {
            if m > 0 {
                assert(actions_over(true, statuses)[m] == actions_over(true, rest)[m - 1]);
            }
        }
    }
}

/// Alerts go out at most once per expiry: between any two looks that send them, the watch
/// was seen Secure (the captain checked in) at some look in between.
pub proof fn lemma_alerts_once_per_expiry(alert_sent: bool, statuses: Seq<WatchStatus>, i: int, j: int)
    requires
        0 <= i < j < statuses.len(),
        actions_over(alert_sent, statuses)[i] == DaemonAction::SendAlerts,
        actions_over(alert_sent, statuses)[j] == DaemonAction::SendAlerts,
    ensures
        exists|k: int| i < k < j && statuses[k] == WatchStatus::Secure,
    decreases statuses.len(),
{
    let rest = statuses.drop_first();
    let next = flag_after_round(alert_sent, statuses[0]);
    lemma_actions_len(alert_sent, statuses);
    lemma_actions_len(next, rest);
    assert(actions_over(alert_sent, statuses)[j] == actions_over(next, rest)[j - 1]);
    if i > 0 {
        assert(actions_over(alert_sent, statuses)[i] == actions_over(next, rest)[i - 1]);
        lemma_alerts_once_per_expiry(next, rest, i - 1, j - 1);
        let k = choose|k: int| i - 1 < k < j - 1 && rest[k] == WatchStatus::Secure;
        assert(statuses[k + 1] == WatchStatus::Secure);
    } else {
        assert(next);
        if !(exists|k: int| i < k < j && statuses[k] == WatchStatus::Secure) {
            assert forall|k: int| 0 <= k < j implies rest[k] != WatchStatus::Secure by {
                if k < j - 1 {
                    assert(statuses[k + 1] != WatchStatus::Secure);
                } else {
                    lemma_send_means_expired(next, rest, k);
                }
            }
            lemma_no_resend_before_secure(rest, j);
            assert(actions_over(true, rest)[j - 1] != DaemonAction::SendAlerts);
        }
    }
}

} // verus!
