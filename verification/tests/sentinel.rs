use dead_reckoning::sentinel::{
    is_suspicious_name, is_system_process, parse_alert_threshold, sentinel_alert_signal, should_alert,
    ProcessSnapshot, Sentinel, ThreatCategory, ThreatInfo, ThreatLevel,
};

fn process(pid: u32, name: &str, exe: Option<&str>) -> ProcessSnapshot {
    ProcessSnapshot { pid, name: name.to_string(), exe: exe.map(|e| e.to_string()) }
}

fn threat(level: ThreatLevel) -> ThreatInfo {
    ThreatInfo {
        level,
        category: ThreatCategory::SuspiciousProcess,
        name: "x".to_string(),
        description: "d".to_string(),
        pid: None,
        path: None,
    }
}

#[test]
fn test_suspicious_names() {
    assert!(is_suspicious_name("svch0st"));
    assert!(is_suspicious_name("malware1234"));
    assert!(!is_suspicious_name("chrome"));
    assert!(!is_suspicious_name("firefox"));
}

#[test]
fn test_sentinel_scan() {
    let mut sentinel = Sentinel::new();
    let report = sentinel.scan();

    // Should complete without panic
    assert!(report.process_count > 0);
    println!("{}", report.render());
}

#[test]
fn suspicious_name_rules() {
    // five to eight bytes, consonants only
    assert!(is_suspicious_name("xkcdq"));
    assert!(is_suspicious_name("bcdfghjk"));
    // too long for the mashing rule
    assert!(!is_suspicious_name("bcdfghjkl"));
    // a vowel breaks the mashing rule
    assert!(!is_suspicious_name("xkcda"));
    // four numeric characters at the end, longer than four bytes
    assert!(is_suspicious_name("a1234"));
    assert!(!is_suspicious_name("1234"));
    // mimics, exact or followed by a dot
    assert!(is_suspicious_name("lssas"));
    assert!(is_suspicious_name("svchosts.exe"));
    // system process names with a number tacked on
    assert!(is_suspicious_name("svchost1"));
    assert!(is_suspicious_name("csrsss"));
    assert!(is_suspicious_name("lsass32.exe"));
    assert!(is_suspicious_name("explorer7"));
    assert!(!is_suspicious_name("svchost.exe"));
    assert!(!is_suspicious_name("explorer.exe"));
    assert!(!is_suspicious_name("svchost1x"));
    assert!(!is_suspicious_name("svchostsexe"));
}

#[test]
fn system_process_names_ignore_case() {
    assert!(is_system_process("svchost.exe"));
    assert!(is_system_process("SVCHOST.EXE"));
    assert!(is_system_process("kworker"));
    assert!(!is_system_process("kworker/0:1"));
    assert!(!is_system_process("notepad.exe"));
}

#[test]
fn thresholds_and_alerts() {
    assert_eq!(parse_alert_threshold("LOW"), ThreatLevel::Low);
    assert_eq!(parse_alert_threshold("medium"), ThreatLevel::Medium);
    assert_eq!(parse_alert_threshold("Critical"), ThreatLevel::Critical);
    assert_eq!(parse_alert_threshold("whatever"), ThreatLevel::High);
    assert!(should_alert(&ThreatLevel::High, &ThreatLevel::High));
    assert!(should_alert(&ThreatLevel::Critical, &ThreatLevel::Low));
    assert!(!should_alert(&ThreatLevel::Medium, &ThreatLevel::High));
    assert!(should_alert(&ThreatLevel::Clear, &ThreatLevel::Clear));
}

#[test]
fn known_malware_is_critical() {
    let sentinel = Sentinel::new();
    let p = process(42, "Mimikatz.exe", Some("C:\\Users\\x\\mimikatz.exe"));
    let t = sentinel.judge_process(&p).unwrap();
    assert_eq!(t.level, ThreatLevel::Critical);
    assert_eq!(t.category, ThreatCategory::Malware);
    assert_eq!(t.name, "Mimikatz.exe");
    assert_eq!(t.description, "Known malware pattern detected: mimikatz. This is very bad.");
    assert_eq!(t.pid, Some(42));
    assert_eq!(t.path.as_deref(), Some("C:\\Users\\x\\mimikatz.exe"));
}

#[test]
fn pattern_found_in_path() {
    let sentinel = Sentinel::new();
    let p = process(7, "helper", Some("/opt/TeamViewer/helper"));
    let t = sentinel.judge_process(&p).unwrap();
    assert_eq!(t.level, ThreatLevel::Medium);
    assert_eq!(t.category, ThreatCategory::RemoteAccess);
    assert_eq!(t.description, "Remote access tool detected: teamviewer. Did ye start this?");
}

#[test]
fn flags_and_allowlist() {
    let mut sentinel = Sentinel::new();
    let obs = process(1, "obs64", Some("/usr/bin/obs64"));
    let t = sentinel.judge_process(&obs).unwrap();
    assert_eq!(t.category, ThreatCategory::ScreenCapture);
    assert_eq!(t.level, ThreatLevel::Low);
    assert_eq!(t.description, "Screen capture tool detected: obs. Hope yer decent.");

    sentinel.set_flag_screen_capture(false);
    assert!(sentinel.judge_process(&obs).is_none());

    let tv = process(2, "anydesk", Some("/usr/bin/anydesk"));
    assert!(sentinel.judge_process(&tv).is_some());
    sentinel.set_flag_remote_access(false);
    assert!(sentinel.judge_process(&tv).is_none());

    let spy = process(3, "Hubstaff", Some("/usr/bin/hubstaff"));
    let t = sentinel.judge_process(&spy).unwrap();
    assert_eq!(t.level, ThreatLevel::High);
    assert_eq!(t.category, ThreatCategory::CorporateSurveillance);
    sentinel.allow("HUBSTAFF");
    assert!(sentinel.judge_process(&spy).is_none());
}

#[test]
fn characteristics() {
    let sentinel = Sentinel::new();
    let tmp = process(5, "helper", Some("/tmp/helper"));
    let t = sentinel.judge_process(&tmp).unwrap();
    assert_eq!(t.level, ThreatLevel::Medium);
    assert_eq!(t.description, "Process running from temporary directory. That's a bit rum.");

    let nopath = process(6, "mystery", None);
    let t = sentinel.judge_process(&nopath).unwrap();
    assert_eq!(t.level, ThreatLevel::Medium);
    assert_eq!(t.path, None);
    assert_eq!(t.description, "Process with no executable path. Could be injected. Concerning.");

    let kernel = process(7, "kthreadd", None);
    assert!(sentinel.judge_process(&kernel).is_none());

    let odd = process(8, "qwrtzp", Some("/usr/bin/qwrtzp"));
    let t = sentinel.judge_process(&odd).unwrap();
    assert_eq!(t.level, ThreatLevel::Medium);
    assert_eq!(t.category, ThreatCategory::SuspiciousProcess);

    let fine = process(9, "firefox", Some("/usr/bin/firefox"));
    assert!(sentinel.judge_process(&fine).is_none());
}

#[test]
fn overall_threat_is_the_highest() {
    let sentinel = Sentinel::new();
    assert_eq!(sentinel.calculate_overall_threat(&[]), ThreatLevel::Clear);
    let ts = vec![threat(ThreatLevel::Low), threat(ThreatLevel::High), threat(ThreatLevel::Medium)];
    assert_eq!(sentinel.calculate_overall_threat(&ts), ThreatLevel::High);
    let ts = vec![threat(ThreatLevel::Low), threat(ThreatLevel::Critical), threat(ThreatLevel::Medium)];
    assert_eq!(sentinel.calculate_overall_threat(&ts), ThreatLevel::Critical);
    let ts = vec![threat(ThreatLevel::Medium), threat(ThreatLevel::Low)];
    assert_eq!(sentinel.calculate_overall_threat(&ts), ThreatLevel::Medium);
}

#[test]
fn report_for_processes() {
    let sentinel = Sentinel::new();
    let ps = vec![
        process(1, "firefox", Some("/usr/bin/firefox")),
        process(2, "pegasus", Some("/x/pegasus")),
        process(3, "obs", Some("/usr/bin/obs")),
    ];
    let report = sentinel.report_for(&ps, 2, 0);
    assert_eq!(report.process_count, 3);
    assert_eq!(report.network_interfaces, 2);
    assert_eq!(report.threats.len(), 2);
    assert_eq!(report.threats[0].pid, Some(2));
    assert_eq!(report.threats[1].pid, Some(3));
    // threats come highest level first, process order within a level
    let ps = vec![
        process(1, "obs", Some("/usr/bin/obs")),
        process(2, "anydesk", Some("/usr/bin/anydesk")),
        process(3, "pegasus", Some("/x/pegasus")),
        process(4, "loom", Some("/usr/bin/loom")),
    ];
    let sorted = sentinel.report_for(&ps, 0, 0);
    let pids: Vec<Option<u32>> = sorted.threats.iter().map(|t| t.pid).collect();
    assert_eq!(pids, vec![Some(3), Some(2), Some(1), Some(4)]);
    assert_eq!(sorted.overall_threat, ThreatLevel::Critical);
    assert_eq!(report.overall_threat, ThreatLevel::Critical);
    assert!(report.listening_ports.is_empty());
    let text = report.render();
    assert!(text.starts_with("=== SENTINEL SCAN REPORT ===\nTime: 1970-01-01 00:00:00 UTC\nProcesses scanned: 3\n"));
    assert!(text.contains("OVERALL THREAT LEVEL: CRITICAL\n\nTHREATS DETECTED: 2\n"));
    assert!(text.contains("\n[1] CRITICAL - MALWARE\n    Name: pegasus\n"));
    assert!(text.contains("\n[2] LOW - SCREEN CAPTURE\n    Name: obs\n"));
    assert!(text.contains("    PID: 3\n    Path: /usr/bin/obs\n"));
}

#[test]
fn empty_report_text() {
    let sentinel = Sentinel::new();
    let report = sentinel.report_for(&[], 1, 86_400_000);
    assert_eq!(
        report.render(),
        "=== SENTINEL SCAN REPORT ===\nTime: 1970-01-02 00:00:00 UTC\nProcesses scanned: 0\nNetwork interfaces: 1\n\nOVERALL THREAT LEVEL: CLEAR\n\nNo threats detected. Lovely. Have a biscuit.\n"
    );
}

#[test]
fn labels_and_alert_signal() {
    assert_eq!(ThreatLevel::Medium.label(), "MEDIUM");
    assert_eq!(ThreatCategory::CorporateSurveillance.label(), "SURVEILLANCE");
    assert_eq!(ThreatCategory::SuspiciousNetwork.label(), "NETWORK");
    let s = sentinel_alert_signal(&ThreatLevel::High);
    assert_eq!(s.message, "SENTINEL ALERT: HIGH threat level detected on system. Possible compromise.");
    assert!(!s.is_duress);
    assert!(!s.cargo_attached);
}

#[test]
fn surveillance_tools_are_high() {
    let sentinel = Sentinel::new();
    for name in ["teramind.exe", "Veriato", "activtrak"] {
        let t = sentinel.judge_process(&process(1, name, Some("/opt/agent"))).unwrap();
        assert_eq!(t.level, ThreatLevel::High);
        assert_eq!(t.category, ThreatCategory::CorporateSurveillance);
    }
}

#[test]
fn mimic_names_are_medium() {
    let sentinel = Sentinel::new();
    let t = sentinel.judge_process(&process(1, "svch0st.exe", Some("/usr/bin/x"))).unwrap();
    assert_eq!(t.level, ThreatLevel::Medium);
    assert_eq!(t.category, ThreatCategory::SuspiciousProcess);
    assert_eq!(t.description, "Process name matches suspicious pattern. Looks like malware namgin'.");
}

#[test]
fn allowlist_holds_each_name_once() {
    let mut sentinel = Sentinel::new();
    sentinel.allow("OBS");
    sentinel.allow("obs");
    assert!(sentinel.judge_process(&process(1, "obs", Some("/usr/bin/obs"))).is_none());
}
