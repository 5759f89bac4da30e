use dead_reckoning::config::{
    default_smtp_port, default_threshold, default_true, default_wipe_method, parse_contact, Config, ContactMethod,
};

#[test]
fn contacts_parse() {
    match parse_contact("email:alice@example.com").unwrap() {
        ContactMethod::Email(a) => assert_eq!(a, "alice@example.com"),
        _ => panic!("expected email"),
    }
    match parse_contact("WebHook:https://example.com:8080/x").unwrap() {
        ContactMethod::Webhook(u) => assert_eq!(u, "https://example.com:8080/x"),
        _ => panic!("expected webhook"),
    }
    match parse_contact("signal:").unwrap() {
        ContactMethod::Signal(s) => assert_eq!(s, ""),
        _ => panic!("expected signal"),
    }
    assert_eq!(
        parse_contact("alice").unwrap_err(),
        "Invalid contact format. Use: type:value (e.g., email:alice@example.com)"
    );
    assert_eq!(parse_contact("Fax:123").unwrap_err(), "Unknown contact type: Fax");
}

#[test]
fn contact_labels() {
    let m = ContactMethod::Telegram("chat".to_string());
    assert_eq!(m.label(), "telegram:chat");
    assert_eq!(m.roster_label(), "telegram: chat");
    assert_eq!(ContactMethod::Matrix("!r".to_string()).label(), "matrix:!r");
}

#[test]
fn fresh_voyage() {
    let c = Config::new_voyage("12h", "3h");
    assert_eq!(c.watch.interval, "12h");
    assert_eq!(c.watch.grace_period, "3h");
    assert_eq!(c.watch.safe_word_hash, "");
    assert_eq!(c.watch.last_checkin, None);
    assert!(c.watch.checkin_history.is_empty());
    assert!(c.fleet.captains.is_empty());
    assert_eq!(c.fleet.threshold, 2);
    assert!(c.smtp.is_none() && c.cargo.is_none() && c.scuttle.is_none());
    let d = Config::default();
    assert_eq!(d.watch.interval, "24h");
    assert_eq!(d.watch.grace_period, "6h");
}

#[test]
fn defaults() {
    assert_eq!(default_smtp_port(), 587);
    assert_eq!(default_threshold(), 2);
    assert!(default_true());
    assert_eq!(default_wipe_method(), "dod");
}

#[test]
fn labels_parse_back() {
    for m in [
        ContactMethod::Email("a@b".to_string()),
        ContactMethod::Signal("+1".to_string()),
        ContactMethod::Matrix("!r:x".to_string()),
        ContactMethod::Telegram("9".to_string()),
        ContactMethod::Webhook("https://a.b/c?d=e:f".to_string()),
    ] {
        let back = parse_contact(&m.label()).unwrap();
        assert_eq!(back.label(), m.label());
    }
    match parse_contact("EMAIL:x").unwrap() {
        ContactMethod::Email(v) => assert_eq!(v, "x"),
        _ => panic!("expected email"),
    }
}
