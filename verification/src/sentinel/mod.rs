//! The sentinel: judges running processes against lists of known spyware, remote access,
//! screen capture and surveillance tools, and against signs of a dodgy process. Listing
//! the processes is done by `sysinfo`; the judging is verified here.

use vstd::prelude::*;
use crate::clock::{now_millis, valid_instant};
use crate::fleet::DistressSignal;
use crate::text::{
    all_ascii, all_digits, ascii_lowered, byte_len, contains_str, decimal, is_digit, decimal_u64, is_alphabetic, is_numeric, joined, lowered, numeric_char,
    alphabetic_char, occurs_in, starts_with, str_eq, to_lowercase,
};

verus! {

/// `sysinfo::System`, the view of the machine's processes, declared so that the sentinel
/// can hold one; nothing inside it is seen.
#[verifier::external_type_specification]
#[verifier::external_body]
pub struct ExSystem(sysinfo::System);

/// Wraps `sysinfo::System::new_all`: a system view with everything loaded.
#[verifier::external_body]
pub(crate) fn new_system() -> sysinfo::System {
    sysinfo::System::new_all()
}

/// Wraps `sysinfo::System::refresh_all`. What the refreshed view holds depends on the
/// machine; nothing is promised.
#[verifier::external_body]
pub(crate) fn refresh_system(system: &mut sysinfo::System) {
    system.refresh_all();
}

/// Wraps `sysinfo::System::processes`, each process taken as its pid, name and executable
/// path (as lossy UTF-8). Which processes run depends on the machine, and the order on a
/// hash map's walk; nothing is promised.
#[verifier::external_body]
pub(crate) fn process_snapshots(system: &sysinfo::System) -> Vec<ProcessSnapshot> {
    let mut out = Vec::new();
    for (pid, process) in system.processes() {
        let exe = match process.exe() {
            Some(p) => Some(p.to_string_lossy().to_string()),
            None => None,
        };
        out.push(ProcessSnapshot { pid: pid.as_u32(), name: process.name().to_string_lossy().to_string(), exe });
    }
    out
}

/// Wraps `sysinfo::Networks::new_with_refreshed_list` and counts the interfaces. The count
/// depends on the machine; nothing is promised.
#[verifier::external_body]
pub(crate) fn network_interface_count() -> usize {
    sysinfo::Networks::new_with_refreshed_list().iter().count()
}

/// What `chrono` writes for an instant (milliseconds since the epoch) with the pattern
/// `%Y-%m-%d %H:%M:%S UTC`.
pub uninterp spec fn utc_text(ms: int) -> Seq<char>;

/// Wraps `DateTime::<Utc>::from_timestamp_millis(..).format("%Y-%m-%d %H:%M:%S UTC")`; the
/// text is named by `utc_text`.
#[verifier::external_body]
pub(crate) fn format_utc(ms: i64) -> (r: String)
    requires
        valid_instant(ms as int),
    ensures
        r@ == utc_text(ms as int),
{
    chrono::DateTime::<chrono::Utc>::from_timestamp_millis(ms).unwrap().format("%Y-%m-%d %H:%M:%S UTC").to_string()
}

/// One running process, as the sentinel sees it.
#[derive(Debug, Clone)]
pub struct ProcessSnapshot {
    pub pid: u32,
    /// The process name, as reported.
    pub name: String,
    /// The executable path, when known.
    pub exe: Option<String>,
}

/// How bad things look.
#[derive(Debug, Clone, Copy, PartialEq, Eq, Structural)]
pub enum ThreatLevel {
    /// No threats.
    Clear,
    /// Worth noting, probably benign.
    Low,
    /// Suspicious.
    Medium,
    /// Likely compromised.
    High,
    /// Known malware.
    Critical,
}

/// What kind of threat.
#[derive(Debug, Clone, Copy, PartialEq, Eq, Structural)]
pub enum ThreatCategory {
    Malware,
    RemoteAccess,
    ScreenCapture,
    CorporateSurveillance,
    SuspiciousNetwork,
    SuspiciousProcess,
}

/// One detected threat.
#[derive(Debug, Clone)]
pub struct ThreatInfo {
    pub level: ThreatLevel,
    pub category: ThreatCategory,
    /// The process name, as reported.
    pub name: String,
    pub description: String,
    pub pid: Option<u32>,
    /// The executable path, when known.
    pub path: Option<String>,
}

/// A threat as plain values.
pub struct ThreatView {
    pub level: ThreatLevel,
    pub category: ThreatCategory,
    pub name: Seq<char>,
    pub description: Seq<char>,
    pub pid: Option<u32>,
    pub path: Option<Seq<char>>,
}

/// An optional text as plain values.
pub open spec fn opt_text(o: Option<String>) -> Option<Seq<char>> {
    match o {
        Some(s) => Some(s@),
        None => None,
    }
}

impl View for ThreatInfo {
    type V = ThreatView;

    open spec fn view(&self) -> ThreatView {
        ThreatView {
            level: self.level,
            category: self.category,
            name: self.name@,
            description: self.description@,
            pid: self.pid,
            path: opt_text(self.path),
        }
    }
}

/// A process as plain values.
pub struct ProcessView {
    pub pid: u32,
    pub name: Seq<char>,
    pub exe: Option<Seq<char>>,
}

impl View for ProcessSnapshot {
    type V = ProcessView;

    open spec fn view(&self) -> ProcessView {
        ProcessView { pid: self.pid, name: self.name@, exe: opt_text(self.exe) }
    }
}

/// The report of a scan.
#[derive(Debug)]
pub struct SentinelReport {
    pub overall_threat: ThreatLevel,
    pub threats: Vec<ThreatInfo>,
    pub process_count: usize,
    pub network_interfaces: usize,
    /// Always empty: finding listening ports would need elevated privileges.
    pub listening_ports: Vec<u16>,
    /// When the scan ran, in milliseconds since the Unix epoch (UTC).
    pub scan_time: i64,
}

/// Name patterns of known spyware, RATs and keyloggers.
pub open spec fn malware_patterns() -> Seq<Seq<char>> {
    seq![
        "pegasus"@,
        "nsogroup"@,
        "candiru"@,
        "predator"@,
        "cytrox"@,
        "finfisher"@,
        "finspy"@,
        "hacking team"@,
        "galileo"@,
        "darkcomet"@,
        "njrat"@,
        "nanocore"@,
        "quasar"@,
        "asyncrat"@,
        "remcos"@,
        "netwire"@,
        "orcus"@,
        "luminosity"@,
        "imminent"@,
        "blackshades"@,
        "poison ivy"@,
        "gh0st"@,
        "xtreme"@,
        "cybergate"@,
        "spynet"@,
        "darktrack"@,
        "havex"@,
        "plugx"@,
        "cobalt"@,
        "cobaltstrike"@,
        "meterpreter"@,
        "mimikatz"@,
        "keylogger"@,
        "ardamax"@,
        "spyrix"@,
        "revealer"@,
        "refog"@,
        "actual spy"@,
        "realtime-spy"@,
        "spytech"@,
        "kickidler"@,
    ]
}

/// Name patterns of remote access tools.
pub open spec fn remote_access_patterns() -> Seq<Seq<char>> {
    seq![
        "teamviewer"@,
        "anydesk"@,
        "rustdesk"@,
        "ammyy"@,
        "logmein"@,
        "gotomypc"@,
        "splashtop"@,
        "supremo"@,
        "remotepc"@,
        "connectwise"@,
        "screenconnect"@,
        "dameware"@,
        "radmin"@,
        "vnc"@,
        "tightvnc"@,
        "ultravnc"@,
        "realvnc"@,
        "tigervnc"@,
        "x11vnc"@,
        "nomachine"@,
        "parsec"@,
        "chrome remote"@,
        "chromeremotedesktop"@,
        "meshagent"@,
        "tacticalrmm"@
    ]
}

/// Name patterns of screen capture tools.
pub open spec fn screen_capture_patterns() -> Seq<Seq<char>> {
    seq![
        "obs"@,
        "obs64"@,
        "obs32"@,
        "streamlabs"@,
        "xsplit"@,
        "bandicam"@,
        "camtasia"@,
        "snagit"@,
        "screencast"@,
        "loom"@,
        "screenrec"@,
        "icecream"@,
        "flashback"@,
        "apowerrec"@,
        "movavi"@,
        "screenpal"@,
        "screencastify"@,
        "recordit"@,
        "sharex"@,
        "greenshot"@,
        "lightshot"@
    ]
}

/// Name patterns of corporate surveillance tools.
pub open spec fn surveillance_patterns() -> Seq<Seq<char>> {
    seq![
        "teramind"@,
        "veriato"@,
        "activtrak"@,
        "hubstaff"@,
        "time doctor"@,
        "desktime"@,
        "workpuls"@,
        "controlio"@,
        "staffcop"@,
        "interguard"@,
        "sneakypete"@,
        "spector"@,
        "webwatcher"@,
        "flexispy"@,
        "mspy"@,
        "cocospy"@,
        "spyic"@,
        "minspy"@,
        "spyine"@,
        "neatspy"@,
        "clickfree"@,
        "phonespector"@
    ]
}

/// Names of Windows system processes that may lawfully have no executable path.
pub open spec fn windows_system_names() -> Seq<Seq<char>> {
    seq![
        "system"@,
        "idle"@,
        "registry"@,
        "memory compression"@,
        "system idle process"@,
        "secure system"@,
        "smss.exe"@,
        "csrss.exe"@,
        "wininit.exe"@,
        "services.exe"@,
        "lsass.exe"@,
        "svchost.exe"@,
        "lsaiso.exe"@,
        "fontdrvhost.exe"@,
        "dwm.exe"@,
        "winlogon.exe"@,
        "spoolsv.exe"@,
        "searchindexer.exe"@,
        "searchprotocolhost.exe"@,
        "searchfilterhost.exe"@,
        "wudfhost.exe"@,
        "dashost.exe"@,
        "sihost.exe"@,
        "taskhostw.exe"@,
        "explorer.exe"@,
        "runtimebroker.exe"@,
        "applicationframehost.exe"@,
        "shellexperiencehost.exe"@,
        "startmenuexperiencehost.exe"@,
        "textinputhost.exe"@,
        "ctfmon.exe"@,
        "conhost.exe"@,
        "dllhost.exe"@,
        "msiexec.exe"@,
        "mscorsvw.exe"@,
        "ngen.exe"@,
        "audiodg.exe"@,
        "wlanext.exe"@,
        "wmpnetwk.exe"@,
        "msmpeng.exe"@,
        "nissrv.exe"@,
        "securityhealthservice.exe"@,
        "mpdefendercoreservice.exe"@,
        "mpcmdrun.exe"@,
        "vmcompute.exe"@,
        "vmwp.exe"@,
        "wslservice.exe"@,
        "gamingservices.exe"@,
        "gamingservicesnet.exe"@,
        "officeclicktorun.exe"@,
        "searchapp.exe"@,
        "filesynchelper.exe"@,
        "onedrive.exe"@,
        "nvdisplay.container.exe"@,
        "atieclxx.exe"@,
        "atiesrxx.exe"@,
        "amdfendrsr.exe"@,
        "rtkauduservice64.exe"@,
        "ngciso.exe"@,
        "postgres.exe"@,
        "pg_ctl.exe"@,
        "mysqld.exe"@,
        "mongod.exe"@,
        "sqlservr.exe"@,
        "redis-server.exe"@,
        "steamservice.exe"@,
        "eabackgroundservice.exe"@,
        "gameinputredistservice.exe"@,
        "vmmemwsl"@,
        "wsl.exe"@,
        "init"@,
        "logi_lamparray_service.exe"@,
        "logitechg_agent.exe"@,
        "wirelesskb850notificationservice.exe"@,
        "corsairservice.exe"@,
        "icue.exe"@,
        "aggregatorhost.exe"@,
        "compattelrunner.exe"@,
        "devicecensus.exe"@,
        "diagtrack.exe"@
    ]
}

/// Names of Linux kernel and system processes.
pub open spec fn linux_system_names() -> Seq<Seq<char>> {
    seq![
        "[kernel]"@,
        "kthreadd"@,
        "ksoftirqd"@,
        "kworker"@,
        "migration"@,
        "watchdog"@,
        "cpuhp"@,
        "init"@,
        "systemd"@,
        "journald"@,
        "udevd"@,
        "dbus-daemon"@,
        "polkitd"@
    ]
}

/// Misspellings of system process names that malware uses.
pub open spec fn mimic_names() -> Seq<Seq<char>> {
    seq![
        "svch0st"@,
        "svchoost"@,
        "svchosts"@,
        "scvhost"@,
        "csrs"@,
        "csrsss"@,
        "cssrs"@,
        "lssas"@,
        "lsasss"@,
        "isass"@,
        "explor3r"@,
        "expl0rer"@,
        "svhost"@,
        "syshost"@,
        "winhost"@
    ]
}

/// The texts of a run of string slices.
pub open spec fn str_texts(v: Seq<&str>) -> Seq<Seq<char>> {
    v.map_values(|s: &str| s@)
}

fn known_malware() -> (r: Vec<&'static str>)
    ensures
        str_texts(r@) == malware_patterns(),
{
    let v = vec![
        "pegasus",
        "nsogroup",
        "candiru",
        "predator",
        "cytrox",
        "finfisher",
        "finspy",
        "hacking team",
        "galileo",
        "darkcomet",
        "njrat",
        "nanocore",
        "quasar",
        "asyncrat",
        "remcos",
        "netwire",
        "orcus",
        "luminosity",
        "imminent",
        "blackshades",
        "poison ivy",
        "gh0st",
        "xtreme",
        "cybergate",
        "spynet",
        "darktrack",
        "havex",
        "plugx",
        "cobalt",
        "cobaltstrike",
        "meterpreter",
        "mimikatz",
        "keylogger",
        "ardamax",
        "spyrix",
        "revealer",
        "refog",
        "actual spy",
        "realtime-spy",
        "spytech",
        "kickidler",
    ];
    assert(str_texts(v@) =~= malware_patterns());
    v
}

fn remote_access_tools() -> (r: Vec<&'static str>)
    ensures
        str_texts(r@) == remote_access_patterns(),
{
    let v = vec![
        "teamviewer",
        "anydesk",
        "rustdesk",
        "ammyy",
        "logmein",
        "gotomypc",
        "splashtop",
        "supremo",
        "remotepc",
        "connectwise",
        "screenconnect",
        "dameware",
        "radmin",
        "vnc",
        "tightvnc",
        "ultravnc",
        "realvnc",
        "tigervnc",
        "x11vnc",
        "nomachine",
        "parsec",
        "chrome remote",
        "chromeremotedesktop",
        "meshagent",
        "tacticalrmm"
    ];
    assert(str_texts(v@) =~= remote_access_patterns());
    v
}

fn screen_capture_tools() -> (r: Vec<&'static str>)
    ensures
        str_texts(r@) == screen_capture_patterns(),
{
    let v = vec![
        "obs",
        "obs64",
        "obs32",
        "streamlabs",
        "xsplit",
        "bandicam",
        "camtasia",
        "snagit",
        "screencast",
        "loom",
        "screenrec",
        "icecream",
        "flashback",
        "apowerrec",
        "movavi",
        "screenpal",
        "screencastify",
        "recordit",
        "sharex",
        "greenshot",
        "lightshot"
    ];
    assert(str_texts(v@) =~= screen_capture_patterns());
    v
}

fn corporate_surveillance() -> (r: Vec<&'static str>)
    ensures
        str_texts(r@) == surveillance_patterns(),
{
    let v = vec![
        "teramind",
        "veriato",
        "activtrak",
        "hubstaff",
        "time doctor",
        "desktime",
        "workpuls",
        "controlio",
        "staffcop",
        "interguard",
        "sneakypete",
        "spector",
        "webwatcher",
        "flexispy",
        "mspy",
        "cocospy",
        "spyic",
        "minspy",
        "spyine",
        "neatspy",
        "clickfree",
        "phonespector"
    ];
    assert(str_texts(v@) =~= surveillance_patterns());
    v
}

fn windows_system() -> (r: Vec<&'static str>)
    ensures
        str_texts(r@) == windows_system_names(),
{
    let v = vec![
        "system",
        "idle",
        "registry",
        "memory compression",
        "system idle process",
        "secure system",
        "smss.exe",
        "csrss.exe",
        "wininit.exe",
        "services.exe",
        "lsass.exe",
        "svchost.exe",
        "lsaiso.exe",
        "fontdrvhost.exe",
        "dwm.exe",
        "winlogon.exe",
        "spoolsv.exe",
        "searchindexer.exe",
        "searchprotocolhost.exe",
        "searchfilterhost.exe",
        "wudfhost.exe",
        "dashost.exe",
        "sihost.exe",
        "taskhostw.exe",
        "explorer.exe",
        "runtimebroker.exe",
        "applicationframehost.exe",
        "shellexperiencehost.exe",
        "startmenuexperiencehost.exe",
        "textinputhost.exe",
        "ctfmon.exe",
        "conhost.exe",
        "dllhost.exe",
        "msiexec.exe",
        "mscorsvw.exe",
        "ngen.exe",
        "audiodg.exe",
        "wlanext.exe",
        "wmpnetwk.exe",
        "msmpeng.exe",
        "nissrv.exe",
        "securityhealthservice.exe",
        "mpdefendercoreservice.exe",
        "mpcmdrun.exe",
        "vmcompute.exe",
        "vmwp.exe",
        "wslservice.exe",
        "gamingservices.exe",
        "gamingservicesnet.exe",
        "officeclicktorun.exe",
        "searchapp.exe",
        "filesynchelper.exe",
        "onedrive.exe",
        "nvdisplay.container.exe",
        "atieclxx.exe",
        "atiesrxx.exe",
        "amdfendrsr.exe",
        "rtkauduservice64.exe",
        "ngciso.exe",
        "postgres.exe",
        "pg_ctl.exe",
        "mysqld.exe",
        "mongod.exe",
        "sqlservr.exe",
        "redis-server.exe",
        "steamservice.exe",
        "eabackgroundservice.exe",
        "gameinputredistservice.exe",
        "vmmemwsl",
        "wsl.exe",
        "init",
        "logi_lamparray_service.exe",
        "logitechg_agent.exe",
        "wirelesskb850notificationservice.exe",
        "corsairservice.exe",
        "icue.exe",
        "aggregatorhost.exe",
        "compattelrunner.exe",
        "devicecensus.exe",
        "diagtrack.exe"
    ];
    assert(str_texts(v@) =~= windows_system_names());
    v
}

fn linux_system() -> (r: Vec<&'static str>)
    ensures
        str_texts(r@) == linux_system_names(),
{
    let v = vec![
        "[kernel]",
        "kthreadd",
        "ksoftirqd",
        "kworker",
        "migration",
        "watchdog",
        "cpuhp",
        "init",
        "systemd",
        "journald",
        "udevd",
        "dbus-daemon",
        "polkitd"
    ];
    assert(str_texts(v@) =~= linux_system_names());
    v
}

fn mimics() -> (r: Vec<&'static str>)
    ensures
        str_texts(r@) == mimic_names(),
{
    let v = vec![
        "svch0st",
        "svchoost",
        "svchosts",
        "scvhost",
        "csrs",
        "csrsss",
        "cssrs",
        "lssas",
        "lsasss",
        "isass",
        "explor3r",
        "expl0rer",
        "svhost",
        "syshost",
        "winhost"
    ];
    assert(str_texts(v@) =~= mimic_names());
    v
}

/// A pattern occurs in the name or in the path.
pub open spec fn hits(pattern: Seq<char>, name: Seq<char>, path: Seq<char>) -> bool {
    occurs_in(name, pattern) || occurs_in(path, pattern)
}

/// The first pattern of a list that occurs in the name or the path.
pub open spec fn first_hit(patterns: Seq<Seq<char>>, name: Seq<char>, path: Seq<char>) -> Option<Seq<char>>
    decreases patterns.len(),
{
    if patterns.len() == 0 {
        None
    } else if hits(patterns[0], name, path) {
        Some(patterns[0])
    } else {
        first_hit(patterns.drop_first(), name, path)
    }
}

/// Finds the first pattern of a list that occurs in the name or the path.
fn find_pattern(patterns: &Vec<&'static str>, name: &str, path: &str) -> (r: Option<&'static str>)
    ensures
        match r {
            Some(p) => first_hit(str_texts(patterns@), name@, path@) == Some(p@),
            None => first_hit(str_texts(patterns@), name@, path@) is None,
        },
{
    let n = patterns.len();
    let ghost all = str_texts(patterns@);
    assert(all.subrange(0, n as int) =~= all);
    let mut i: usize = 0;
    while i < n
        invariant
            n == patterns@.len(),
            all == str_texts(patterns@),
            i <= n,
            first_hit(all, name@, path@) == first_hit(all.subrange(i as int, n as int), name@, path@),
        decreases n - i,
    {
        let p = patterns[i];
        proof {
            let s = all.subrange(i as int, n as int);
            assert(s[0] == p@);
            assert(s.drop_first() =~= all.subrange(i + 1, n as int));
        }
        if contains_str(name, p) || contains_str(path, p) {
            return Some(p);
        }
        i = i + 1;
    }
    assert(all.subrange(n as int, n as int) =~= Seq::<Seq<char>>::empty());
    None
}

/// Whether a list of names holds `s`.
fn list_contains(list: &Vec<&'static str>, s: &str) -> (r: bool)
    ensures
        r == str_texts(list@).contains(s@),
{
    let n = list.len();
    let mut i: usize = 0;
    while i < n
        invariant
            n == list@.len(),
            i <= n,
            forall|k: int| 0 <= k < i ==> str_texts(list@)[k] != s@,
        decreases n - i,
    {
        if str_eq(list[i], s) {
            assert(str_texts(list@)[i as int] == s@);
            return true;
        }
        i = i + 1;
    }
    false
}

/// The lowercased executable path, or empty when unknown.
pub open spec fn exe_text(p: ProcessView) -> Seq<char> {
    match p.exe {
        Some(e) => lowered(e),
        None => Seq::empty(),
    }
}

/// The threat found when a pattern of a list occurs in the lowercased name or path: with
/// the given level, category, and description around the pattern.
pub open spec fn list_threat(
    patterns: Seq<Seq<char>>,
    level: ThreatLevel,
    category: ThreatCategory,
    lead: Seq<char>,
    tail: Seq<char>,
    p: ProcessView,
) -> Option<ThreatView> {
    match first_hit(patterns, lowered(p.name), exe_text(p)) {
        Some(m) => Some(
            ThreatView {
                level,
                category,
                name: p.name,
                description: lead + m + tail,
                pid: Some(p.pid),
                path: p.exe,
            },
        ),
        None => None,
    }
}

/// The path runs from a temporary directory.
pub open spec fn in_temp_dir(path: Seq<char>) -> bool {
    occurs_in(path, "\\temp\\"@) || occurs_in(path, "/tmp/"@) || occurs_in(path, "\\appdata\\local\\temp"@)
}

/// A known system process name (compared lowercased).
pub open spec fn system_process_name(name: Seq<char>) -> bool {
    windows_system_names().contains(lowered(name)) || linux_system_names().contains(lowered(name))
}

/// One of the five lowercase vowels.
pub open spec fn is_vowel(c: char) -> bool {
    c == 'a' || c == 'e' || c == 'i' || c == 'o' || c == 'u'
}

/// A letter that is not a lowercase vowel.
pub open spec fn is_consonant(c: char) -> bool {
    !is_vowel(c) && alphabetic_char(c)
}

/// The name is 5 to 8 bytes long, with a consonant and no vowel (keyboard mashing).
pub open spec fn mashed_name(name: Seq<char>) -> bool {
    let len = byte_len(name);
    &&& 5 <= len <= 8
    &&& exists|i: int| 0 <= i < name.len() && #[trigger] is_consonant(name[i])
    &&& forall|i: int| 0 <= i < name.len() ==> !is_vowel(#[trigger] name[i])
}

/// The name is longer than 4 bytes and its last four characters (or all, when fewer) are
/// numeric.
pub open spec fn numbered_name(name: Seq<char>) -> bool {
    let start = if name.len() >= 4 { name.len() - 4 } else { 0 };
    &&& byte_len(name) > 4
    &&& forall|i: int| start <= i < name.len() ==> numeric_char(#[trigger] name[i])
}

/// The name is a mimic of a system process, or starts with one followed by a dot.
pub open spec fn mimic_name(name: Seq<char>) -> bool {
    exists|k: int|
        0 <= k < mimic_names().len() && (name == #[trigger] mimic_names()[k] || (mimic_names()[k]
            + "."@).is_prefix_of(name))
}

/// The system process names that malware most often copies with a number tacked on.
pub open spec fn mimicked_stems() -> Seq<Seq<char>> {
    seq!["svchost"@, "csrss"@, "lsass"@, "explorer"@]
}

/// One or more ASCII digits, optionally followed by ".exe".
pub open spec fn digits_then_exe(rest: Seq<char>) -> bool {
    ||| rest.len() > 0 && all_digits(rest)
    ||| rest.len() > 4 && rest.subrange(rest.len() - 4, rest.len() as int) == ".exe"@ && all_digits(
        rest.subrange(0, rest.len() - 4),
    )
}

/// The name is a system process name with a number tacked on, such as "svchost1" or
/// "lsass32.exe".
pub open spec fn numbered_system_name(name: Seq<char>) -> bool {
    exists|k: int|
        0 <= k < mimicked_stems().len() && (#[trigger] mimicked_stems()[k]).is_prefix_of(name) && digits_then_exe(
            name.subrange(mimicked_stems()[k].len() as int, name.len() as int),
        )
}

/// A name that looks like malware naming.
pub open spec fn suspicious_name_spec(name: Seq<char>) -> bool {
    mashed_name(name) || numbered_name(name) || mimic_name(name) || numbered_system_name(name)
}

/// The threat a process shows by its characteristics: running from a temporary directory;
/// no executable path without being a system process; a suspicious name.
pub open spec fn characteristic_threat(p: ProcessView) -> Option<ThreatView> {
    let name = lowered(p.name);
    let path = exe_text(p);
    if in_temp_dir(path) {
        Some(
            ThreatView {
                level: ThreatLevel::Medium,
                category: ThreatCategory::SuspiciousProcess,
                name: p.name,
                description: "Process running from temporary directory. That's a bit rum."@,
                pid: Some(p.pid),
                path: p.exe,
            },
        )
    } else if p.exe is None && !system_process_name(name) {
        Some(
            ThreatView {
                level: ThreatLevel::Medium,
                category: ThreatCategory::SuspiciousProcess,
                name: p.name,
                description: "Process with no executable path. Could be injected. Concerning."@,
                pid: Some(p.pid),
                path: None,
            },
        )
    } else if suspicious_name_spec(name) {
        Some(
            ThreatView {
                level: ThreatLevel::Medium,
                category: ThreatCategory::SuspiciousProcess,
                name: p.name,
                description: "Process name matches suspicious pattern. Looks like malware namgin'."@,
                pid: Some(p.pid),
                path: p.exe,
            },
        )
    } else {
        None
    }
}

/// The threat a process is judged to be, if any: allowlisted names pass; then known
/// malware, remote access (when flagged), screen capture (when flagged), surveillance, and
/// finally the process's characteristics, the first that applies.
pub open spec fn threat_for(allowed: Seq<Seq<char>>, flag_remote: bool, flag_capture: bool, p: ProcessView) -> Option<ThreatView> {
    let name = lowered(p.name);
    if allowed.contains(name) {
        None
    } else if list_threat(malware_patterns(), ThreatLevel::Critical, ThreatCategory::Malware,
        "Known malware pattern detected: "@, ". This is very bad."@, p) is Some {
        list_threat(malware_patterns(), ThreatLevel::Critical, ThreatCategory::Malware,
            "Known malware pattern detected: "@, ". This is very bad."@, p)
    } else if flag_remote && list_threat(remote_access_patterns(), ThreatLevel::Medium,
        ThreatCategory::RemoteAccess, "Remote access tool detected: "@, ". Did ye start this?"@, p) is Some {
        list_threat(remote_access_patterns(), ThreatLevel::Medium, ThreatCategory::RemoteAccess,
            "Remote access tool detected: "@, ". Did ye start this?"@, p)
    } else if flag_capture && list_threat(screen_capture_patterns(), ThreatLevel::Low,
        ThreatCategory::ScreenCapture, "Screen capture tool detected: "@, ". Hope yer decent."@, p) is Some {
        list_threat(screen_capture_patterns(), ThreatLevel::Low, ThreatCategory::ScreenCapture,
            "Screen capture tool detected: "@, ". Hope yer decent."@, p)
    } else if list_threat(surveillance_patterns(), ThreatLevel::High, ThreatCategory::CorporateSurveillance,
        "Corporate surveillance tool detected: "@, ". Big Brother is watchin'."@, p) is Some {
        list_threat(surveillance_patterns(), ThreatLevel::High, ThreatCategory::CorporateSurveillance,
            "Corporate surveillance tool detected: "@, ". Big Brother is watchin'."@, p)
    } else {
        characteristic_threat(p)
    }
}

/// The threats found among processes, in the order of the processes.
pub open spec fn threats_spec(allowed: Seq<Seq<char>>, flag_remote: bool, flag_capture: bool, procs: Seq<ProcessView>) -> Seq<ThreatView>
    decreases procs.len(),
{
    if procs.len() == 0 {
        Seq::empty()
    } else {
        let rest = threats_spec(allowed, flag_remote, flag_capture, procs.drop_last());
        match threat_for(allowed, flag_remote, flag_capture, procs.last()) {
            Some(t) => rest.push(t),
            None => rest,
        }
    }
}

/// The views of a run of threats.
pub open spec fn threat_views(v: Seq<ThreatInfo>) -> Seq<ThreatView> {
    v.map_values(|t: ThreatInfo| t@)
}

/// The views of a run of processes.
pub open spec fn process_views(v: Seq<ProcessSnapshot>) -> Seq<ProcessView> {
    v.map_values(|p: ProcessSnapshot| p@)
}

/// The rank of a level: Clear 0 up to Critical 4.
pub open spec fn level_rank(l: ThreatLevel) -> int {
    match l {
        ThreatLevel::Clear => 0,
        ThreatLevel::Low => 1,
        ThreatLevel::Medium => 2,
        ThreatLevel::High => 3,
        ThreatLevel::Critical => 4,
    }
}

/// The highest level among threats (Clear when there are none).
pub open spec fn highest_level(ts: Seq<ThreatView>) -> ThreatLevel
    decreases ts.len(),
{
    if ts.len() == 0 {
        ThreatLevel::Clear
    } else {
        let a = highest_level(ts.drop_last());
        let b = ts.last().level;
        if level_rank(b) > level_rank(a) {
            b
        } else {
            a
        }
    }
}

/// The highest level is at least the level of each threat.
pub proof fn lemma_highest_at_least(ts: Seq<ThreatView>, i: int)
    requires
        0 <= i < ts.len(),
    ensures
        level_rank(highest_level(ts)) >= level_rank(ts[i].level),
    decreases ts.len(),
{
    if i < ts.len() - 1 {
        lemma_highest_at_least(ts.drop_last(), i);
    }
}

/// The highest level is the level of one of the threats, or Clear with none.
pub proof fn lemma_highest_is_some_level(ts: Seq<ThreatView>)
    ensures
        ts.len() == 0 ==> highest_level(ts) == ThreatLevel::Clear,
        ts.len() > 0 ==> exists|i: int| 0 <= i < ts.len() && #[trigger] ts[i].level == highest_level(ts),
    decreases ts.len(),
{
    if ts.len() > 0 {
        lemma_highest_is_some_level(ts.drop_last());
        if level_rank(ts.last().level) > level_rank(highest_level(ts.drop_last())) {
            assert(ts[ts.len() - 1].level == highest_level(ts));
        } else if ts.len() > 1 {
            let i = choose|i: int| 0 <= i < ts.drop_last().len() && #[trigger] ts.drop_last()[i].level == highest_level(ts.drop_last());
            assert(ts[i].level == highest_level(ts));
        } else {
            assert(ts[0].level == highest_level(ts));
        }
    }
}

/// Keeps the threats of one level.
pub open spec fn level_is(l: ThreatLevel) -> spec_fn(ThreatView) -> bool {
    |t: ThreatView| t.level == l
}

/// The threats of one level, in their order.
pub open spec fn at_level(ts: Seq<ThreatView>, l: ThreatLevel) -> Seq<ThreatView> {
    ts.filter(level_is(l))
}

/// The threats sorted by level, highest first; within a level, in their order.
pub open spec fn by_level(ts: Seq<ThreatView>) -> Seq<ThreatView> {
    at_level(ts, ThreatLevel::Critical) + (at_level(ts, ThreatLevel::High) + (at_level(ts, ThreatLevel::Medium) + (
    at_level(ts, ThreatLevel::Low) + at_level(ts, ThreatLevel::Clear))))
}

/// No threat comes before one of a higher level.
pub open spec fn highest_first(ts: Seq<ThreatView>) -> bool {
    forall|i: int, j: int| 0 <= i < j < ts.len() ==> level_rank(#[trigger] ts[i].level) >= level_rank(#[trigger] ts[j].level)
}

/// Every threat of a level's run has that level.
proof fn lemma_at_level_levels(ts: Seq<ThreatView>, l: ThreatLevel)
    ensures
        forall|i: int| 0 <= i < at_level(ts, l).len() ==> (#[trigger] at_level(ts, l)[i]).level == l,
{
    assert forall|i: int| 0 <= i < at_level(ts, l).len() implies (#[trigger] at_level(ts, l)[i]).level == l by {
        ts.lemma_filter_pred(level_is(l), i);
    }
}

/// A run of one level put before threats of that level or lower stays highest first.
proof fn lemma_prepend_level(a: Seq<ThreatView>, b: Seq<ThreatView>, l: ThreatLevel)
    requires
        forall|i: int| 0 <= i < a.len() ==> (#[trigger] a[i]).level == l,
        highest_first(b),
        forall|j: int| 0 <= j < b.len() ==> level_rank((#[trigger] b[j]).level) <= level_rank(l),
    ensures
        highest_first(a + b),
        forall|j: int| 0 <= j < (a + b).len() ==> level_rank((#[trigger] (a + b)[j]).level) <= level_rank(l),
{
    let c = a + b;
    assert forall|i: int, j: int| 0 <= i < j < c.len() implies level_rank(#[trigger] c[i].level) >= level_rank(#[trigger] c[j].level) by {
        if j < a.len() {
            assert(c[i] == a[i] && c[j] == a[j]);
        } else if i < a.len() {
            assert(c[i] == a[i] && c[j] == b[j - a.len()]);
        } else {
            assert(c[i] == b[i - a.len()] && c[j] == b[j - a.len()]);
        }
    }
    assert forall|j: int| 0 <= j < c.len() implies level_rank((#[trigger] c[j]).level) <= level_rank(l) by {
        if j < a.len() {
            assert(c[j] == a[j]);
        } else {
            assert(c[j] == b[j - a.len()]);
        }
    }
}

/// Sorting by level puts the highest levels first.
pub proof fn lemma_by_level_highest_first(ts: Seq<ThreatView>)
    ensures
        highest_first(by_level(ts)),
{
    lemma_at_level_levels(ts, ThreatLevel::Critical);
    lemma_at_level_levels(ts, ThreatLevel::High);
    lemma_at_level_levels(ts, ThreatLevel::Medium);
    lemma_at_level_levels(ts, ThreatLevel::Low);
    lemma_at_level_levels(ts, ThreatLevel::Clear);
    let e = Seq::<ThreatView>::empty();
    assert(at_level(ts, ThreatLevel::Clear) + e =~= at_level(ts, ThreatLevel::Clear));
    lemma_prepend_level(at_level(ts, ThreatLevel::Clear), e, ThreatLevel::Clear);
    let s1 = at_level(ts, ThreatLevel::Low) + at_level(ts, ThreatLevel::Clear);
    lemma_prepend_level(at_level(ts, ThreatLevel::Low), at_level(ts, ThreatLevel::Clear), ThreatLevel::Low);
    let s2 = at_level(ts, ThreatLevel::Medium) + s1;
    lemma_prepend_level(at_level(ts, ThreatLevel::Medium), s1, ThreatLevel::Medium);
    let s3 = at_level(ts, ThreatLevel::High) + s2;
    lemma_prepend_level(at_level(ts, ThreatLevel::High), s2, ThreatLevel::High);
    lemma_prepend_level(at_level(ts, ThreatLevel::Critical), s3, ThreatLevel::Critical);
}

/// The runs of each level after one more threat.
proof fn lemma_at_level_push(ts: Seq<ThreatView>, t: ThreatView, l: ThreatLevel)
    ensures
        at_level(ts.push(t), l) == (if t.level == l {
            at_level(ts, l).push(t)
        } else {
            at_level(ts, l)
        }),
{
    reveal_with_fuel(Seq::<_>::filter, 1);
    assert(ts.push(t).drop_last() =~= ts);
}

/// Sorts threats by level, highest first, keeping their order within a level.
pub fn sort_by_level(threats: Vec<ThreatInfo>) -> (r: Vec<ThreatInfo>)
    ensures
        threat_views(r@) == by_level(threat_views(threats@)),
{
    let ghost orig = threats@;
    let mut rest = threats;
    let mut critical: Vec<ThreatInfo> = Vec::new();
    let mut high: Vec<ThreatInfo> = Vec::new();
    let mut medium: Vec<ThreatInfo> = Vec::new();
    let mut low: Vec<ThreatInfo> = Vec::new();
    let mut clear: Vec<ThreatInfo> = Vec::new();
    let n = rest.len();
    assert(threat_views(orig.subrange(0, 0)) =~= Seq::<ThreatView>::empty());
    proof {
        reveal_with_fuel(Seq::<_>::filter, 1);
    }
    assert(orig.subrange(n - rest@.len(), n as int) =~= rest@);
    while rest.len() > 0
        invariant
            n == orig.len(),
            rest@.len() <= n,
            rest@ == orig.subrange(n - rest@.len(), n as int),
            threat_views(critical@) == at_level(threat_views(orig.subrange(0, n - rest@.len())), ThreatLevel::Critical),
            threat_views(high@) == at_level(threat_views(orig.subrange(0, n - rest@.len())), ThreatLevel::High),
            threat_views(medium@) == at_level(threat_views(orig.subrange(0, n - rest@.len())), ThreatLevel::Medium),
            threat_views(low@) == at_level(threat_views(orig.subrange(0, n - rest@.len())), ThreatLevel::Low),
            threat_views(clear@) == at_level(threat_views(orig.subrange(0, n - rest@.len())), ThreatLevel::Clear),
        decreases rest@.len(),
    {
        let ghost k = n - rest@.len();
        let t = rest.remove(0);
        let ghost tv = t@;
        proof {
            let before = threat_views(orig.subrange(0, k));
            assert(threat_views(orig.subrange(0, k + 1)) =~= before.push(tv));
            lemma_at_level_push(before, tv, ThreatLevel::Critical);
            lemma_at_level_push(before, tv, ThreatLevel::High);
            lemma_at_level_push(before, tv, ThreatLevel::Medium);
            lemma_at_level_push(before, tv, ThreatLevel::Low);
            lemma_at_level_push(before, tv, ThreatLevel::Clear);
            assert(rest@ =~= orig.subrange(k + 1, n as int));
        }
        match t.level {
            ThreatLevel::Critical => {
                let ghost b = critical@;
                critical.push(t);
                assert(threat_views(critical@) =~= threat_views(b).push(tv));
            },
            ThreatLevel::High => {
                let ghost b = high@;
                high.push(t);
                assert(threat_views(high@) =~= threat_views(b).push(tv));
            },
            ThreatLevel::Medium => {
                let ghost b = medium@;
                medium.push(t);
                assert(threat_views(medium@) =~= threat_views(b).push(tv));
            },
            ThreatLevel::Low => {
                let ghost b = low@;
                low.push(t);
                assert(threat_views(low@) =~= threat_views(b).push(tv));
            },
            ThreatLevel::Clear => {
                let ghost b = clear@;
                clear.push(t);
                assert(threat_views(clear@) =~= threat_views(b).push(tv));
            },
        }
    }
    assert(orig.subrange(0, n as int) =~= orig);
    let ghost (c0, h0, m0, l0, z0) = (critical@, high@, medium@, low@, clear@);
    low.append(&mut clear);
    medium.append(&mut low);
    high.append(&mut medium);
    critical.append(&mut high);
    assert(threat_views(critical@) =~= threat_views(c0) + (threat_views(h0) + (threat_views(m0) + (threat_views(l0)
        + threat_views(z0)))));
    critical
}

/// Whether a level reaches a threshold.
pub fn should_alert(current: &ThreatLevel, threshold: &ThreatLevel) -> (r: bool)
    ensures
        r == (level_rank(*current) >= level_rank(*threshold)),
{
    level_number(current) >= level_number(threshold)
}

fn level_number(l: &ThreatLevel) -> (r: u8)
    ensures
        r as int == level_rank(*l),
{
    match l {
        ThreatLevel::Clear => 0,
        ThreatLevel::Low => 1,
        ThreatLevel::Medium => 2,
        ThreatLevel::High => 3,
        ThreatLevel::Critical => 4,
    }
}

/// The level a threshold name stands for (compared lowercased); High for any other.
pub open spec fn threshold_named(s: Seq<char>) -> ThreatLevel {
    let n = lowered(s);
    if n == "low"@ {
        ThreatLevel::Low
    } else if n == "medium"@ {
        ThreatLevel::Medium
    } else if n == "high"@ {
        ThreatLevel::High
    } else if n == "critical"@ {
        ThreatLevel::Critical
    } else {
        ThreatLevel::High
    }
}

/// Reads an alert threshold: "low", "medium", "high" or "critical" in any case; High otherwise.
pub fn parse_alert_threshold(s: &str) -> (r: ThreatLevel)
    ensures
        r == threshold_named(s@),
{
    let lower_text = to_lowercase(s);
    let n = lower_text.as_str();
    if str_eq(n, "low") {
        ThreatLevel::Low
    } else if str_eq(n, "medium") {
        ThreatLevel::Medium
    } else if str_eq(n, "high") {
        ThreatLevel::High
    } else if str_eq(n, "critical") {
        ThreatLevel::Critical
    } else {
        ThreatLevel::High
    }
}

/// Whether a name is a known system process that may have no executable path (compared
/// lowercased).
pub fn is_system_process(name: &str) -> (r: bool)
    ensures
        r == system_process_name(name@),
{
    let lower_text = to_lowercase(name);
    let n = lower_text.as_str();
    list_contains(&windows_system(), n) || list_contains(&linux_system(), n)
}

/// Whether a name looks like malware naming: 5 to 8 bytes with a consonant and no vowel;
/// longer than 4 bytes ending in four numeric characters; or a misspelt system process.
pub fn is_suspicious_name(name: &str) -> (r: bool)
    ensures
        r == suspicious_name_spec(name@),
{
    let chars = crate::text::chars_of(name);
    let n = chars.len();
    let bytes = name.len();
    if bytes >= 5 && bytes <= 8 {
        let mut saw_vowel = false;
        let mut saw_consonant = false;
        let mut i: usize = 0;
        while i < n
            invariant
                n == chars@.len(),
                chars@ == name@,
                i <= n,
                !saw_vowel <==> forall|j: int| 0 <= j < i ==> !is_vowel(#[trigger] chars@[j]),
                saw_consonant <==> exists|j: int| 0 <= j < i && #[trigger] is_consonant(chars@[j]),
            decreases n - i,
        {
            let c = chars[i];
            let vowel = c == 'a' || c == 'e' || c == 'i' || c == 'o' || c == 'u';
            if vowel {
                saw_vowel = true;
            } else if is_alphabetic(c) {
                assert(is_consonant(chars@[i as int]));
                saw_consonant = true;
            }
            i = i + 1;
        }
        if saw_consonant && !saw_vowel && bytes > 4 {
            return true;
        }
        assert(!mashed_name(name@));
    }
    if bytes > 4 {
        let start = if n >= 4 { n - 4 } else { 0 };
        let mut all_numeric = true;
        let mut k: usize = start;
        while k < n
            invariant
                n == chars@.len(),
                chars@ == name@,
                start <= k <= n,
                all_numeric <==> forall|j: int| start <= j < k ==> numeric_char(#[trigger] chars@[j]),
            decreases n - k,
        {
            if !is_numeric(chars[k]) {
                all_numeric = false;
            }
            k = k + 1;
        }
        if all_numeric {
            return true;
        }
    }
    let list = mimics();
    let m = list.len();
    let mut q: usize = 0;
    while q < m
        invariant
            m == list@.len(),
            str_texts(list@) == mimic_names(),
            q <= m,
            forall|k: int|
                0 <= k < q ==> !(name@ == #[trigger] mimic_names()[k] || (mimic_names()[k] + "."@).is_prefix_of(name@)),
        decreases m - q,
    {
        let mimic = list[q];
        let dotted = joined(mimic, ".");
        if str_eq(name, mimic) || starts_with(name, dotted.as_str()) {
            assert(mimic_names()[q as int] == mimic@);
            return true;
        }
        q = q + 1;
    }
    is_numbered_system_name(name)
}

/// Whether the characters from `start` to `end` are all ASCII digits.
fn digits_between(chars: &Vec<char>, start: usize, end: usize) -> (r: bool)
    requires
        start <= end <= chars@.len(),
    ensures
        r == all_digits(chars@.subrange(start as int, end as int)),
{
    let mut i: usize = start;
    while i < end
        invariant
            start <= i <= end <= chars@.len(),
            forall|j: int| start <= j < i ==> is_digit(#[trigger] chars@[j]),
        decreases end - i,
    {
        let c = chars[i];
        if !('0' <= c && c <= '9') {
            assert(chars@.subrange(start as int, end as int)[i - start] == c);
            return false;
        }
        i = i + 1;
    }
    assert forall|j: int| 0 <= j < end - start implies is_digit(#[trigger] chars@.subrange(start as int, end as int)[j]) by {
        assert(chars@.subrange(start as int, end as int)[j] == chars@[start + j]);
    }
    true
}

/// Whether a name is a commonly copied system process name with a number tacked on.
fn is_numbered_system_name(name: &str) -> (r: bool)
    ensures
        r == numbered_system_name(name@),
{
    let chars = crate::text::chars_of(name);
    let n = chars.len();
    let stems: Vec<&'static str> = vec!["svchost", "csrss", "lsass", "explorer"];
    assert(str_texts(stems@) =~= mimicked_stems());
    let mut q: usize = 0;
    while q < stems.len()
        invariant
            chars@ == name@,
            n == chars@.len(),
            str_texts(stems@) == mimicked_stems(),
            q <= stems@.len(),
            forall|k: int|
                0 <= k < q ==> !((#[trigger] mimicked_stems()[k]).is_prefix_of(name@) && digits_then_exe(
                    name@.subrange(mimicked_stems()[k].len() as int, name@.len() as int),
                )),
        decreases stems@.len() - q,
    {
        let stem = stems[q];
        assert(mimicked_stems()[q as int] == stem@);
        if starts_with(name, stem) {
            let k = stem.unicode_len();
            let rest = Ghost(name@.subrange(k as int, n as int));
            let plain = n > k && digits_between(&chars, k, n);
            proof {
                assert(rest@ =~= chars@.subrange(k as int, n as int));
            }
            if plain {
                return true;
            }
            if n - k > 4 && chars[n - 4] == '.' && chars[n - 3] == 'e' && chars[n - 2] == 'x' && chars[n - 1] == 'e'
                && digits_between(&chars, k, n - 4) {
                proof {
                    assert(rest@.subrange(rest@.len() - 4, rest@.len() as int) =~= ".exe"@) by {
                        reveal_strlit(".exe");
                    }
                    assert(rest@.subrange(0, rest@.len() - 4) =~= chars@.subrange(k as int, n - 4));
                }
                return true;
            }
            proof {
                if rest@.len() > 4 && rest@.subrange(rest@.len() - 4, rest@.len() as int) == ".exe"@ {
                    reveal_strlit(".exe");
                    assert(rest@.subrange(rest@.len() - 4, rest@.len() as int)[0] == '.');
                    assert(rest@.subrange(rest@.len() - 4, rest@.len() as int)[1] == 'e');
                    assert(rest@.subrange(rest@.len() - 4, rest@.len() as int)[2] == 'x');
                    assert(rest@.subrange(rest@.len() - 4, rest@.len() as int)[3] == 'e');
                    assert(rest@.subrange(0, rest@.len() - 4) =~= chars@.subrange(k as int, n - 4));
                }
            }
        }
        q = q + 1;
    }
    false
}

/// The threat view of an optional threat.
pub open spec fn opt_threat(o: Option<ThreatInfo>) -> Option<ThreatView> {
    match o {
        Some(t) => Some(t@),
        None => None,
    }
}

/// The sentinel: the system view, an allowlist, and which tool kinds to flag.
pub struct Sentinel {
    system: sysinfo::System,
    allowlist: Vec<String>,
    flag_remote_access: bool,
    flag_screen_capture: bool,
}

impl Sentinel {
    /// The allowlisted names (lowercased), in the order they were added.
    pub closed spec fn allowed(&self) -> Seq<Seq<char>> {
        self.allowlist@.map_values(|s: String| s@)
    }

    /// Whether remote access tools are flagged.
    pub closed spec fn flags_remote(&self) -> bool {
        self.flag_remote_access
    }

    /// Whether screen capture tools are flagged.
    pub closed spec fn flags_capture(&self) -> bool {
        self.flag_screen_capture
    }

    /// A sentinel that flags everything, with an empty allowlist.
    pub fn new() -> (s: Sentinel)
        ensures
            s.allowed() == Seq::<Seq<char>>::empty(),
            s.allowed().no_duplicates(),
            s.flags_remote(),
            s.flags_capture(),
    {
        let s = Sentinel {
            system: new_system(),
            allowlist: Vec::new(),
            flag_remote_access: true,
            flag_screen_capture: true,
        };
        assert(s.allowed() =~= Seq::<Seq<char>>::empty());
        s
    }

    /// Allows a process name (lowercased): it will not be flagged.
    pub fn allow(&mut self, name: &str)
        ensures
            final(self).allowed().contains(lowered(name@)),
            old(self).allowed().no_duplicates() ==> final(self).allowed().no_duplicates(),
            forall|x: Seq<char>|
                #![trigger final(self).allowed().contains(x)]
                final(self).allowed().contains(x) <==> (old(self).allowed().contains(x) || x == lowered(name@)),
            final(self).flags_remote() == old(self).flags_remote(),
            final(self).flags_capture() == old(self).flags_capture(),
    {
        let lower_text = to_lowercase(name);
        if !self.is_allowed(lower_text.as_str()) {
            let ghost before = self.allowed();
            self.allowlist.push(lower_text);
            proof {
                broadcast use vstd::seq_lib::group_seq_properties;

                assert(self.allowed() =~= before.push(lowered(name@)));
            }
        }
    }

    /// Whether a (lowercased) name is allowlisted.
    fn is_allowed(&self, name: &str) -> (r: bool)
        ensures
            r == self.allowed().contains(name@),
    {
        let n = self.allowlist.len();
        let mut i: usize = 0;
        while i < n
            invariant
                n == self.allowlist@.len(),
                i <= n,
                forall|k: int| 0 <= k < i ==> self.allowed()[k] != name@,
            decreases n - i,
        {
            if str_eq(self.allowlist[i].as_str(), name) {
                assert(self.allowed()[i as int] == name@);
                return true;
            }
            i = i + 1;
        }
        false
    }

    /// Sets whether remote access tools are flagged.
    pub fn set_flag_remote_access(&mut self, flag: bool)
        ensures
            final(self).flags_remote() == flag,
            final(self).flags_capture() == old(self).flags_capture(),
            final(self).allowed() == old(self).allowed(),
    {
        self.flag_remote_access = flag;
    }

    /// Sets whether screen capture tools are flagged.
    pub fn set_flag_screen_capture(&mut self, flag: bool)
        ensures
            final(self).flags_capture() == flag,
            final(self).flags_remote() == old(self).flags_remote(),
            final(self).allowed() == old(self).allowed(),
    {
        self.flag_screen_capture = flag;
    }

    /// A threat for the first pattern of a list found in the lowercased name or path.
    fn check_list(
        &self,
        patterns: &Vec<&'static str>,
        level: ThreatLevel,
        category: ThreatCategory,
        lead: &str,
        tail: &str,
        name: &str,
        exe_path: &str,
        process: &ProcessSnapshot,
    ) -> (r: Option<ThreatInfo>)
        requires
            name@ == lowered(process@.name),
            exe_path@ == exe_text(process@),
        ensures
            opt_threat(r) == list_threat(str_texts(patterns@), level, category, lead@, tail@, process@),
    {
        match find_pattern(patterns, name, exe_path) {
            Some(p) => {
                let mut description = joined(lead, p);
                description.append(tail);
                Some(ThreatInfo {
                    level,
                    category,
                    name: process.name.clone(),
                    description,
                    pid: Some(process.pid),
                    path: process.exe.clone(),
                })
            },
            None => None,
        }
    }

    /// Known malware: Critical.
    pub fn check_malware(&self, name: &str, exe_path: &str, process: &ProcessSnapshot) -> (r: Option<ThreatInfo>)
        requires
            name@ == lowered(process@.name),
            exe_path@ == exe_text(process@),
        ensures
            opt_threat(r) == list_threat(malware_patterns(), ThreatLevel::Critical, ThreatCategory::Malware,
                "Known malware pattern detected: "@, ". This is very bad."@, process@),
    {
        self.check_list(&known_malware(), ThreatLevel::Critical, ThreatCategory::Malware,
            "Known malware pattern detected: ", ". This is very bad.", name, exe_path, process)
    }

    /// Remote access tools: Medium.
    pub fn check_remote_access(&self, name: &str, exe_path: &str, process: &ProcessSnapshot) -> (r: Option<ThreatInfo>)
        requires
            name@ == lowered(process@.name),
            exe_path@ == exe_text(process@),
        ensures
            opt_threat(r) == list_threat(remote_access_patterns(), ThreatLevel::Medium, ThreatCategory::RemoteAccess,
                "Remote access tool detected: "@, ". Did ye start this?"@, process@),
    {
        self.check_list(&remote_access_tools(), ThreatLevel::Medium, ThreatCategory::RemoteAccess,
            "Remote access tool detected: ", ". Did ye start this?", name, exe_path, process)
    }

    /// Screen capture tools: Low.
    pub fn check_screen_capture(&self, name: &str, exe_path: &str, process: &ProcessSnapshot) -> (r: Option<ThreatInfo>)
        requires
            name@ == lowered(process@.name),
            exe_path@ == exe_text(process@),
        ensures
            opt_threat(r) == list_threat(screen_capture_patterns(), ThreatLevel::Low, ThreatCategory::ScreenCapture,
                "Screen capture tool detected: "@, ". Hope yer decent."@, process@),
    {
        self.check_list(&screen_capture_tools(), ThreatLevel::Low, ThreatCategory::ScreenCapture,
            "Screen capture tool detected: ", ". Hope yer decent.", name, exe_path, process)
    }

    /// Corporate surveillance tools: High.
    pub fn check_corporate_surveillance(&self, name: &str, exe_path: &str, process: &ProcessSnapshot) -> (r: Option<ThreatInfo>)
        requires
            name@ == lowered(process@.name),
            exe_path@ == exe_text(process@),
        ensures
            opt_threat(r) == list_threat(surveillance_patterns(), ThreatLevel::High,
                ThreatCategory::CorporateSurveillance, "Corporate surveillance tool detected: "@,
                ". Big Brother is watchin'."@, process@),
    {
        self.check_list(&corporate_surveillance(), ThreatLevel::High, ThreatCategory::CorporateSurveillance,
            "Corporate surveillance tool detected: ", ". Big Brother is watchin'.", name, exe_path, process)
    }

    /// Dodgy characteristics: a temporary directory, no path, or a suspicious name.
    pub fn check_suspicious_process(&self, name: &str, exe_path: &str, process: &ProcessSnapshot) -> (r: Option<ThreatInfo>)
        requires
            name@ == lowered(process@.name),
            exe_path@ == exe_text(process@),
        ensures
            opt_threat(r) == characteristic_threat(process@),
    {
        if contains_str(exe_path, "\\temp\\") || contains_str(exe_path, "/tmp/") || contains_str(
            exe_path,
            "\\appdata\\local\\temp",
        ) {
            return Some(ThreatInfo {
                level: ThreatLevel::Medium,
                category: ThreatCategory::SuspiciousProcess,
                name: process.name.clone(),
                description: String::from_str("Process running from temporary directory. That's a bit rum."),
                pid: Some(process.pid),
                path: process.exe.clone(),
            });
        }
        if process.exe.is_none() && !is_system_process(name) {
            return Some(ThreatInfo {
                level: ThreatLevel::Medium,
                category: ThreatCategory::SuspiciousProcess,
                name: process.name.clone(),
                description: String::from_str("Process with no executable path. Could be injected. Concerning."),
                pid: Some(process.pid),
                path: None,
            });
        }
        if is_suspicious_name(name) {
            return Some(ThreatInfo {
                level: ThreatLevel::Medium,
                category: ThreatCategory::SuspiciousProcess,
                name: process.name.clone(),
                description: String::from_str("Process name matches suspicious pattern. Looks like malware namgin'."),
                pid: Some(process.pid),
                path: process.exe.clone(),
            });
        }
        None
    }

    /// The threat a process is judged to be, if any.
    pub fn judge_process(&self, process: &ProcessSnapshot) -> (r: Option<ThreatInfo>)
        ensures
            opt_threat(r) == threat_for(self.allowed(), self.flags_remote(), self.flags_capture(), process@),
    {
        let lower_text = to_lowercase(process.name.as_str());
        let name = lower_text.as_str();
        let exe_lowered = match &process.exe {
            Some(p) => to_lowercase(p.as_str()),
            None => String::new(),
        };
        let exe_path = exe_lowered.as_str();
        if self.is_allowed(name) {
            return None;
        }
        let malware = self.check_malware(name, exe_path, process);
        if malware.is_some() {
            return malware;
        }
        if self.flag_remote_access {
            let remote = self.check_remote_access(name, exe_path, process);
            if remote.is_some() {
                return remote;
            }
        }
        if self.flag_screen_capture {
            let capture = self.check_screen_capture(name, exe_path, process);
            if capture.is_some() {
                return capture;
            }
        }
        let watching = self.check_corporate_surveillance(name, exe_path, process);
        if watching.is_some() {
            return watching;
        }
        self.check_suspicious_process(name, exe_path, process)
    }

    /// Judges every process, keeping the threats in the order of the processes.
    pub fn scan_processes(&self, processes: &[ProcessSnapshot]) -> (r: Vec<ThreatInfo>)
        ensures
            threat_views(r@) == threats_spec(self.allowed(), self.flags_remote(), self.flags_capture(), process_views(processes@)),
    {
        let mut threats: Vec<ThreatInfo> = Vec::new();
        let n = processes.len();
        let mut i: usize = 0;
        while i < n
            invariant
                n == processes@.len(),
                i <= n,
                threat_views(threats@) == threats_spec(self.allowed(), self.flags_remote(), self.flags_capture(),
                    process_views(processes@.subrange(0, i as int))),
            decreases n - i,
        {
            let found = self.judge_process(&processes[i]);
            proof {
                let ps = process_views(processes@.subrange(0, i + 1));
                assert(ps.drop_last() =~= process_views(processes@.subrange(0, i as int)));
                assert(ps.last() == processes@[i as int]@);
            }
            match found {
                Some(t) => {
                    let ghost before = threats@;
                    let ghost tv = t@;
                    threats.push(t);
                    assert(threat_views(threats@) =~= threat_views(before).push(tv));
                },
                None => {},
            }
            i = i + 1;
        }
        assert(processes@.subrange(0, n as int) =~= processes@);
        threats
    }

    /// The overall level: the highest level among the threats, Clear with none.
    pub fn calculate_overall_threat(&self, threats: &[ThreatInfo]) -> (r: ThreatLevel)
        ensures
            r == highest_level(threat_views(threats@)),
    {
        if threats.len() == 0 {
            return ThreatLevel::Clear;
        }
        let ghost views = threat_views(threats@);
        let mut highest = ThreatLevel::Clear;
        let n = threats.len();
        let mut i: usize = 0;
        while i < n
            invariant
                n == threats@.len(),
                views == threat_views(threats@),
                i <= n,
                highest == highest_level(views.subrange(0, i as int)),
            decreases n - i,
        {
            let level = threats[i].level;
            proof {
                let s = views.subrange(0, i + 1);
                assert(s.drop_last() =~= views.subrange(0, i as int));
                assert(s.last().level == level);
            }
            match (highest, level) {
                (_, ThreatLevel::Critical) => {
                    proof {
                        lemma_highest_at_least(views, i as int);
                    }
                    return ThreatLevel::Critical;
                },
                (ThreatLevel::Clear, l) => {
                    highest = l;
                },
                (ThreatLevel::Low, ThreatLevel::Medium) | (ThreatLevel::Low, ThreatLevel::High) => {
                    highest = level;
                },
                (ThreatLevel::Medium, ThreatLevel::High) => {
                    highest = ThreatLevel::High;
                },
                _ => {},
            }
            i = i + 1;
        }
        assert(views.subrange(0, n as int) =~= views);
        highest
    }

    /// The report for a list of processes, the number of network interfaces, and the
    /// instant of the scan.
    pub fn report_for(&self, processes: &[ProcessSnapshot], network_interfaces: usize, scan_time: i64) -> (r: SentinelReport)
        ensures
            threat_views(r.threats@) == by_level(
                threats_spec(self.allowed(), self.flags_remote(), self.flags_capture(), process_views(processes@)),
            ),
            highest_first(threat_views(r.threats@)),
            r.overall_threat == highest_level(threat_views(r.threats@)),
            r.process_count == processes@.len(),
            r.network_interfaces == network_interfaces,
            r.listening_ports@.len() == 0,
            r.scan_time == scan_time,
    {
        let threats = sort_by_level(self.scan_processes(processes));
        proof {
            lemma_by_level_highest_first(
                threats_spec(self.allowed(), self.flags_remote(), self.flags_capture(), process_views(processes@)),
            );
        }
        let overall_threat = self.calculate_overall_threat(threats.as_slice());
        SentinelReport {
            overall_threat,
            threats,
            process_count: processes.len(),
            network_interfaces,
            listening_ports: Vec::new(),
            scan_time,
        }
    }

    /// Scans the running processes now. The processes, interfaces and time come from the
    /// machine; the judging of them is as `report_for` states.
    pub fn scan(&mut self) -> (r: SentinelReport)
        ensures
            final(self).allowed() == old(self).allowed(),
            final(self).flags_remote() == old(self).flags_remote(),
            final(self).flags_capture() == old(self).flags_capture(),
            exists|procs: Seq<ProcessSnapshot>|
                #![trigger process_views(procs)]
                r.process_count == procs.len() && threat_views(r.threats@) == by_level(
                    threats_spec(old(self).allowed(), old(self).flags_remote(), old(self).flags_capture(), process_views(procs)),
                ),
            highest_first(threat_views(r.threats@)),
            r.overall_threat == highest_level(threat_views(r.threats@)),
            r.listening_ports@.len() == 0,
            valid_instant(r.scan_time as int),
    {
        refresh_system(&mut self.system);
        let processes = process_snapshots(&self.system);
        let interfaces = network_interface_count();
        let now = now_millis();
        self.report_for(processes.as_slice(), interfaces, now)
    }
}

impl Default for Sentinel {
    /// The same as `Sentinel::new`.
    fn default() -> (s: Sentinel)
        ensures
            s.allowed() == Seq::<Seq<char>>::empty(),
            s.flags_remote(),
            s.flags_capture(),
    {
        Sentinel::new()
    }
}

/// How a threat level is written.
pub open spec fn level_label(l: ThreatLevel) -> Seq<char> {
    match l {
        ThreatLevel::Clear => "CLEAR"@,
        ThreatLevel::Low => "LOW"@,
        ThreatLevel::Medium => "MEDIUM"@,
        ThreatLevel::High => "HIGH"@,
        ThreatLevel::Critical => "CRITICAL"@,
    }
}

/// How a threat category is written.
pub open spec fn category_label(c: ThreatCategory) -> Seq<char> {
    match c {
        ThreatCategory::Malware => "MALWARE"@,
        ThreatCategory::RemoteAccess => "REMOTE ACCESS"@,
        ThreatCategory::ScreenCapture => "SCREEN CAPTURE"@,
        ThreatCategory::CorporateSurveillance => "SURVEILLANCE"@,
        ThreatCategory::SuspiciousNetwork => "NETWORK"@,
        ThreatCategory::SuspiciousProcess => "PROCESS"@,
    }
}

impl ThreatLevel {
    /// The level as written in reports: CLEAR, LOW, MEDIUM, HIGH or CRITICAL.
    pub fn label(&self) -> (r: &'static str)
        ensures
            r@ == level_label(*self),
    {
        match self {
            ThreatLevel::Clear => "CLEAR",
            ThreatLevel::Low => "LOW",
            ThreatLevel::Medium => "MEDIUM",
            ThreatLevel::High => "HIGH",
            ThreatLevel::Critical => "CRITICAL",
        }
    }
}

impl ThreatCategory {
    /// The category as written in reports.
    pub fn label(&self) -> (r: &'static str)
        ensures
            r@ == category_label(*self),
    {
        match self {
            ThreatCategory::Malware => "MALWARE",
            ThreatCategory::RemoteAccess => "REMOTE ACCESS",
            ThreatCategory::ScreenCapture => "SCREEN CAPTURE",
            ThreatCategory::CorporateSurveillance => "SURVEILLANCE",
            ThreatCategory::SuspiciousNetwork => "NETWORK",
            ThreatCategory::SuspiciousProcess => "PROCESS",
        }
    }
}

/// The lines of one threat in a report, numbered from one.
pub open spec fn threat_entry(number: int, t: ThreatView) -> Seq<char> {
    "\n["@ + decimal(number) + "] "@ + level_label(t.level) + " - "@ + category_label(t.category) + "\n"@
        + "    Name: "@ + t.name + "\n"@ + "    "@ + t.description + "\n"@
        + match t.pid {
        Some(pid) => "    PID: "@ + decimal(pid as int) + "\n"@,
        None => Seq::empty(),
    } + match t.path {
        Some(path) => "    Path: "@ + path + "\n"@,
        None => Seq::empty(),
    }
}

/// The lines of all threats, in order.
pub open spec fn threat_entries(ts: Seq<ThreatView>) -> Seq<char>
    decreases ts.len(),
{
    if ts.len() == 0 {
        Seq::empty()
    } else {
        threat_entries(ts.drop_last()) + threat_entry(ts.len() as int, ts.last())
    }
}

/// The rule under the threat count: fifty dashes.
pub open spec fn report_rule() -> Seq<char> {
    "--------------------------------------------------"@
}

/// The text of a scan report.
pub open spec fn sentinel_report_text(
    scan_time: int,
    process_count: int,
    network_interfaces: int,
    overall: ThreatLevel,
    threats: Seq<ThreatView>,
) -> Seq<char> {
    "=== SENTINEL SCAN REPORT ===\nTime: "@ + utc_text(scan_time) + "\nProcesses scanned: "@ + decimal(process_count)
        + "\nNetwork interfaces: "@ + decimal(network_interfaces) + "\n\nOVERALL THREAT LEVEL: "@ + level_label(overall)
        + "\n\n"@ + if threats.len() == 0 {
        "No threats detected. Lovely. Have a biscuit.\n"@
    } else {
        "THREATS DETECTED: "@ + decimal(threats.len() as int) + "\n"@ + report_rule() + "\n"@ + threat_entries(threats)
    }
}

/// The lines of one threat, numbered `number`.
fn threat_entry_text(number: u64, t: &ThreatInfo) -> (r: String)
    ensures
        r@ == threat_entry(number as int, t@),
{
    let mut out = String::from_str("\n[");
    let n = decimal_u64(number);
    out.append(n.as_str());
    out.append("] ");
    out.append(t.level.label());
    out.append(" - ");
    out.append(t.category.label());
    out.append("\n");
    out.append("    Name: ");
    out.append(t.name.as_str());
    out.append("\n");
    out.append("    ");
    out.append(t.description.as_str());
    out.append("\n");
    let ghost fixed = out@;
    match t.pid {
        Some(pid) => {
            let p = decimal_u64(pid as u64);
            out.append("    PID: ");
            out.append(p.as_str());
            out.append("\n");
        },
        None => {},
    }
    let ghost with_pid = out@;
    match &t.path {
        Some(path) => {
            out.append("    Path: ");
            out.append(path.as_str());
            out.append("\n");
        },
        None => {},
    }
    proof {
        let pid_part = match t@.pid {
            Some(pid) => "    PID: "@ + decimal(pid as int) + "\n"@,
            None => Seq::<char>::empty(),
        };
        let path_part = match t@.path {
            Some(path) => "    Path: "@ + path + "\n"@,
            None => Seq::<char>::empty(),
        };
        assert(with_pid =~= fixed + pid_part);
        assert(out@ =~= with_pid + path_part);
    }
    out
}

/// The lines of all threats, in order.
fn threat_entries_text(threats: &[ThreatInfo]) -> (r: String)
    ensures
        r@ == threat_entries(threat_views(threats@)),
{
    let mut out = String::new();
    let n = threats.len();
    let mut i: usize = 0;
    while i < n
        invariant
            n == threats@.len(),
            i <= n,
            out@ == threat_entries(threat_views(threats@.subrange(0, i as int))),
        decreases n - i,
    {
        proof {
            let s = threat_views(threats@.subrange(0, i + 1));
            assert(s.drop_last() =~= threat_views(threats@.subrange(0, i as int)));
            assert(s.last() == threats@[i as int]@);
        }
        let entry = threat_entry_text(i as u64 + 1, &threats[i]);
        out.append(entry.as_str());
        i = i + 1;
    }
    assert(threats@.subrange(0, n as int) =~= threats@);
    out
}

impl SentinelReport {
    /// When the scan ran, as `%Y-%m-%d %H:%M:%S UTC`.
    pub fn scan_time_text(&self) -> (r: String)
        requires
            valid_instant(self.scan_time as int),
        ensures
            r@ == utc_text(self.scan_time as int),
    {
        format_utc(self.scan_time)
    }

    /// The report as text: the time, counts and overall level, then each threat.
    pub fn render(&self) -> (r: String)
        requires
            valid_instant(self.scan_time as int),
        ensures
            r@ == sentinel_report_text(
                self.scan_time as int,
                self.process_count as int,
                self.network_interfaces as int,
                self.overall_threat,
                threat_views(self.threats@),
            ),
    {
        let time = format_utc(self.scan_time);
        let processes = decimal_u64(self.process_count as u64);
        let interfaces = decimal_u64(self.network_interfaces as u64);
        let mut out = String::from_str("=== SENTINEL SCAN REPORT ===\nTime: ");
        out.append(time.as_str());
        out.append("\nProcesses scanned: ");
        out.append(processes.as_str());
        out.append("\nNetwork interfaces: ");
        out.append(interfaces.as_str());
        out.append("\n\nOVERALL THREAT LEVEL: ");
        out.append(self.overall_threat.label());
        out.append("\n\n");
        let ghost head = out@;
        if self.threats.len() == 0 {
            out.append("No threats detected. Lovely. Have a biscuit.\n");
        } else {
            let count = decimal_u64(self.threats.len() as u64);
            let entries = threat_entries_text(self.threats.as_slice());
            out.append("THREATS DETECTED: ");
            out.append(count.as_str());
            out.append("\n");
            out.append("--------------------------------------------------");
            out.append("\n");
            out.append(entries.as_str());
        }
        out
    }
}

/// The distress signal sent when a watching scan reaches the alert threshold.
pub fn sentinel_alert_signal(level: &ThreatLevel) -> (s: DistressSignal)
    ensures
        s.message@ == "SENTINEL ALERT: "@ + level_label(*level)
            + " threat level detected on system. Possible compromise."@,
        !s.cargo_attached,
        !s.is_duress,
{
    let mut message = String::from_str("SENTINEL ALERT: ");
    message.append(level.label());
    message.append(" threat level detected on system. Possible compromise.");
    DistressSignal { message, cargo_attached: false, is_duress: false }
}

/// An allowlisted process is never flagged, whatever it looks like and whichever tool
/// kinds are flagged.
pub proof fn lemma_allowed_never_flagged(allowed: Seq<Seq<char>>, flag_remote: bool, flag_capture: bool, p: ProcessView)
    requires
        allowed.contains(lowered(p.name)),
    ensures
        threat_for(allowed, flag_remote, flag_capture, p) is None,
{
}

/// Known malware is always judged Critical malware, whichever tool kinds are flagged.
pub proof fn lemma_malware_ignores_flags(allowed: Seq<Seq<char>>, flag_remote: bool, flag_capture: bool, p: ProcessView)
    requires
        !allowed.contains(lowered(p.name)),
        first_hit(malware_patterns(), lowered(p.name), exe_text(p)) is Some,
    ensures
        threat_for(allowed, flag_remote, flag_capture, p) matches Some(t) && t.level == ThreatLevel::Critical
            && t.category == ThreatCategory::Malware,
{
}

/// One Critical threat makes the whole report Critical.
pub proof fn lemma_one_critical_makes_critical(ts: Seq<ThreatView>, i: int)
    requires
        0 <= i < ts.len(),
        ts[i].level == ThreatLevel::Critical,
    ensures
        highest_level(ts) == ThreatLevel::Critical,
{
    lemma_highest_at_least(ts, i);
}

/// A known system process that shows no executable path (as Windows system processes
/// and kernel threads do) is not a threat for lacking one: unless it matches a tool list or
/// has a suspicious name, it is never flagged, whatever is allowed and flagged.
pub proof fn lemma_pathless_system_process_passes(allowed: Seq<Seq<char>>, flag_remote: bool, flag_capture: bool, p: ProcessView)
    requires
        p.exe is None,
        all_ascii(p.name),
        windows_system_names().contains(ascii_lowered(p.name)) || linux_system_names().contains(ascii_lowered(p.name)),
        first_hit(malware_patterns(), ascii_lowered(p.name), Seq::empty()) is None,
        first_hit(remote_access_patterns(), ascii_lowered(p.name), Seq::empty()) is None,
        first_hit(screen_capture_patterns(), ascii_lowered(p.name), Seq::empty()) is None,
        first_hit(surveillance_patterns(), ascii_lowered(p.name), Seq::empty()) is None,
        !suspicious_name_spec(ascii_lowered(p.name)),
    ensures
        threat_for(allowed, flag_remote, flag_capture, p) is None,
{
    crate::text::lemma_ascii_lowered_idempotent(p.name);
    let e = Seq::<char>::empty();
    assert(exe_text(p) == e);
    reveal_strlit("\\temp\\");
    reveal_strlit("/tmp/");
    reveal_strlit("\\appdata\\local\\temp");
    assert(!occurs_in(e, "\\temp\\"@));
    assert(!occurs_in(e, "/tmp/"@));
    assert(!occurs_in(e, "\\appdata\\local\\temp"@));
    assert(!in_temp_dir(e));
    assert(system_process_name(lowered(p.name)));
}

/// Each threshold name reads as the level of that name, in any case: the level's label,
/// lowercased, is the name; any other text reads as High.
pub proof fn lemma_threshold_names_their_level(s: Seq<char>)
    ensures
        lowered(s) == "low"@ || lowered(s) == "medium"@ || lowered(s) == "high"@ || lowered(s) == "critical"@
            ==> ascii_lowered(level_label(threshold_named(s))) == lowered(s),
        !(lowered(s) == "low"@ || lowered(s) == "medium"@ || lowered(s) == "high"@ || lowered(s) == "critical"@)
            ==> threshold_named(s) == ThreatLevel::High,
{
    reveal_strlit("low");
    reveal_strlit("medium");
    reveal_strlit("high");
    reveal_strlit("critical");
    reveal_strlit("LOW");
    reveal_strlit("MEDIUM");
    reveal_strlit("HIGH");
    reveal_strlit("CRITICAL");
    assert(ascii_lowered("LOW"@) =~= "low"@);
    assert(ascii_lowered("MEDIUM"@) =~= "medium"@);
    assert(ascii_lowered("HIGH"@) =~= "high"@);
    assert(ascii_lowered("CRITICAL"@) =~= "critical"@);
}

/// The core Windows processes that show no path are among the known system processes.
pub proof fn lemma_windows_core_processes_known()
    ensures
        windows_system_names().contains("system"@),
        windows_system_names().contains("registry"@),
        windows_system_names().contains("smss.exe"@),
        windows_system_names().contains("csrss.exe"@),
{
    assert(windows_system_names()[0] == "system"@);
    assert(windows_system_names()[2] == "registry"@);
    assert(windows_system_names()[6] == "smss.exe"@);
    assert(windows_system_names()[7] == "csrss.exe"@);
}

} // verus!
