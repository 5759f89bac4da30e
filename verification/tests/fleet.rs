use dead_reckoning::config::{Captain, Config, ContactMethod, SmtpConfig};
use dead_reckoning::error::Error;
use dead_reckoning::fleet::{
    email_body, email_recipient, email_subject, manual_signal, remove_captains_named, roster_text, webhook_kind,
    Delivery, DistressSignal, Fleet, NotifyResult,
};

fn captain(name: &str, contact: ContactMethod) -> Captain {
    Captain { name: name.to_string(), contact }
}

fn signal(is_duress: bool) -> DistressSignal {
    DistressSignal { message: "help".to_string(), cargo_attached: true, is_duress }
}

fn smtp() -> SmtpConfig {
    SmtpConfig {
        host: "smtp.example.com".to_string(),
        port: 587,
        username: "u".to_string(),
        password: "p".to_string(),
        from: "me@example.com".to_string(),
        starttls: true,
    }
}

fn fleet_config() -> Config {
    let mut c = Config::default();
    c.fleet.captains = vec![
        captain("Alice", ContactMethod::Email("alice@example.com".to_string())),
        captain("Bob", ContactMethod::Webhook("https://bob.example/hook".to_string())),
        captain("Carol", ContactMethod::Signal("+123".to_string())),
    ];
    c.fleet.threshold = 2;
    c
}

#[test]
fn email_parts() {
    assert_eq!(email_subject(&signal(true)), "URGENT: Dead Reckoning - DURESS ALERT");
    assert_eq!(email_subject(&signal(false)), "Dead Reckoning - Watch Expired");
    assert_eq!(email_recipient("Alice", "a@x"), "Alice <a@x>");
    assert_eq!(webhook_kind(&signal(true)), "DURESS");
    assert_eq!(webhook_kind(&signal(false)), "DISTRESS");
    assert_eq!(
        email_body(&signal(false), "2024-01-01T00:00:00+00:00"),
        "help\n\n---\nThis is an automated message from Dead Reckoning.\nThe watch has expired and the captain has not checked in.\n\nTimestamp: 2024-01-01T00:00:00+00:00\nType: EXPIRED\nCargo attached: Yes\n\nIf you received this message, please follow the pre-arranged protocol.\nMay fair winds guide yer actions. Cheerio.\n"
    );
}

#[test]
fn manual_signals() {
    let s = manual_signal(None, true);
    assert_eq!(s.message, "DURESS SIGNAL - Captain may be compromised");
    assert!(s.is_duress && !s.cargo_attached);
    let s = manual_signal(None, false);
    assert_eq!(s.message, "Watch expired - Captain has not checked in");
    let s = manual_signal(Some("ahoy".to_string()), false);
    assert_eq!(s.message, "ahoy");
}

#[test]
fn removing_captains() {
    let mut cs = fleet_config().fleet.captains;
    cs.push(captain("Alice", ContactMethod::Matrix("!room".to_string())));
    assert_eq!(remove_captains_named(&mut cs, "Alice"), 2);
    assert_eq!(cs.len(), 2);
    assert_eq!(cs[0].name, "Bob");
    assert_eq!(cs[1].name, "Carol");
    assert_eq!(remove_captains_named(&mut cs, "Zed"), 0);
    assert_eq!(cs.len(), 2);
}

#[test]
fn roster() {
    let c = fleet_config();
    assert_eq!(
        roster_text(&c.fleet.captains),
        "  1. Alice (email: alice@example.com)\n  2. Bob (webhook: https://bob.example/hook)\n  3. Carol (signal: +123)\n"
    );
    assert_eq!(roster_text(&[]), "No captains enlisted.\n");
}

#[test]
fn accessors() {
    let f = Fleet::new(fleet_config());
    assert_eq!(f.captains().len(), 3);
    assert_eq!(f.threshold(), 2);
    assert!(f.smtp().is_none());
}

#[test]
fn plan_without_smtp() {
    let f = Fleet::new(fleet_config());
    let plan = f.distress_plan(&signal(false), "T");
    assert_eq!(plan.len(), 3);
    match &plan[0] {
        Delivery::Logged { line } => assert_eq!(line, "[EMAIL] SMTP not configured. Would send to alice@example.com: help"),
        _ => panic!("expected a logged email"),
    }
    match &plan[1] {
        Delivery::Webhook { url, kind, message, cargo_attached, timestamp } => {
            assert_eq!(url, "https://bob.example/hook");
            assert_eq!(kind, "DISTRESS");
            assert_eq!(message, "help");
            assert!(*cargo_attached);
            assert_eq!(timestamp, "T");
        },
        _ => panic!("expected a webhook"),
    }
    match &plan[2] {
        Delivery::Logged { line } => assert_eq!(line, "[SIGNAL] Would send: help"),
        _ => panic!("expected a logged signal"),
    }
}

#[test]
fn plan_with_smtp() {
    let mut c = fleet_config();
    c.smtp = Some(smtp());
    let f = Fleet::new(c);
    let d = f.delivery_for(&f.captains()[0].clone(), &signal(true), "T");
    match d {
        Delivery::Email { smtp, to, subject, body } => {
            assert_eq!(smtp.host, "smtp.example.com");
            assert_eq!(to, "Alice <alice@example.com>");
            assert_eq!(subject, "URGENT: Dead Reckoning - DURESS ALERT");
            assert!(body.starts_with("help\n\n---\n"));
            assert!(body.contains("Type: DURESS\n"));
        },
        _ => panic!("expected an email"),
    }
    let m = f.delivery_for(&captain("Dan", ContactMethod::Matrix("!r".to_string())), &signal(false), "T");
    match m {
        Delivery::Logged { line } => assert_eq!(line, "[MATRIX] Would send: help"),
        _ => panic!("expected a logged matrix message"),
    }
    let t = f.delivery_for(&captain("Eve", ContactMethod::Telegram("9".to_string())), &signal(false), "T");
    match t {
        Delivery::Logged { line } => assert_eq!(line, "[TELEGRAM] Would send: help"),
        _ => panic!("expected a logged telegram message"),
    }
}

#[test]
fn results_follow_outcomes() {
    let f = Fleet::new(fleet_config());
    let outcomes = vec![Ok(()), Err(Error::Notification("SMTP error: boom".to_string())), Ok(())];
    let rs = f.distress_results(&outcomes);
    assert_eq!(rs.len(), 3);
    assert_eq!(rs[0].captain, "Alice");
    assert!(rs[0].success && rs[0].error.is_none());
    assert_eq!(rs[1].captain, "Bob");
    assert!(!rs[1].success);
    assert_eq!(rs[1].error.as_deref(), Some("Notification failed: SMTP error: boom"));
    let one = NotifyResult::from_outcome(&f.captains()[2].clone(), &Err(Error::Io("gone".to_string())));
    assert_eq!(one.error.as_deref(), Some("IO error: gone"));
}
