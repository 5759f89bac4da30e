//! The configuration of a voyage: watch settings, the fleet of contacts, SMTP, cargo and
//! scuttle settings. Loading and saving it (TOML on disk) happens outside the library.

use vstd::prelude::*;
use crate::text::{all_ascii, ascii_lowered, joined, lowered, str_eq, to_lowercase};

verus! {

/// The whole configuration.
#[derive(Debug, Clone)]
pub struct Config {
    /// Watch configuration (the dead man's switch itself).
    pub watch: WatchConfig,
    /// The trusted contacts.
    pub fleet: FleetConfig,
    /// SMTP configuration, for email.
    pub smtp: Option<SmtpConfig>,
    /// Encrypted files to release.
    pub cargo: Option<CargoConfig>,
    /// Files to destroy in an emergency.
    pub scuttle: Option<ScuttleConfig>,
}

/// SMTP configuration for sending email.
#[derive(Debug, Clone)]
pub struct SmtpConfig {
    pub host: String,
    pub port: u16,
    pub username: String,
    pub password: String,
    pub from: String,
    /// STARTTLS (true) or implicit TLS (false).
    pub starttls: bool,
}

/// Watch configuration.
#[derive(Debug, Clone)]
pub struct WatchConfig {
    /// Check-in interval, such as "24h", "12h" or "7d".
    pub interval: String,
    /// Grace period after the interval, such as "6h".
    pub grace_period: String,
    /// Hex SHA-256 of the normalized safe phrase.
    pub safe_word_hash: String,
    /// Hex SHA-256 of the normalized duress phrase.
    pub duress_word_hash: String,
    /// The last accepted check-in, in milliseconds since the Unix epoch (UTC).
    pub last_checkin: Option<i64>,
    /// The recent accepted check-ins (at most thirty, oldest first), in milliseconds since
    /// the Unix epoch (UTC), for judging the timing of the next one.
    pub checkin_history: Vec<i64>,
}

/// The fleet: trusted contacts and the secret-sharing threshold.
#[derive(Debug, Clone)]
pub struct FleetConfig {
    pub captains: Vec<Captain>,
    /// How many captains are needed to reconstruct a secret.
    pub threshold: u8,
}

/// One trusted contact.
#[derive(Debug, Clone)]
pub struct Captain {
    pub name: String,
    pub contact: ContactMethod,
}

/// How a captain is reached.
#[derive(Debug, Clone)]
pub enum ContactMethod {
    Email(String),
    Signal(String),
    Matrix(String),
    Telegram(String),
    Webhook(String),
}

/// Encrypted files to release when the watch expires.
#[derive(Debug, Clone)]
pub struct CargoConfig {
    /// Files and directories to include.
    pub manifest: Vec<String>,
    /// Where the encrypted cargo is kept, once created.
    pub chest_path: Option<String>,
    /// Release the cargo when the watch expires.
    pub release_on_expiry: bool,
    /// Also release to public endpoints.
    pub public_release: bool,
}

/// Files to destroy when scuttling.
#[derive(Debug, Clone)]
pub struct ScuttleConfig {
    pub paths: Vec<String>,
    /// Wipe method: "zero", "random", "dod" or "gutmann".
    pub method: String,
}

/// The SMTP port used when none is configured (STARTTLS).
pub fn default_smtp_port() -> (r: u16)
    ensures
        r == 587,
{
    587
}

/// The threshold used when none is configured.
pub fn default_threshold() -> (r: u8)
    ensures
        r == 2,
{
    2
}

/// The value of boolean options that are on unless configured otherwise.
pub fn default_true() -> (r: bool)
    ensures
        r,
{
    true
}

/// The wipe method used when none is configured (DoD 5220.22-M).
pub fn default_wipe_method() -> (r: String)
    ensures
        r@ == "dod"@,
{
    String::from_str("dod")
}

/// The configuration of a new voyage with the given interval and grace period: no
/// phrases, no check-in yet, no captains, threshold 2, nothing else configured.
pub open spec fn is_fresh_voyage(c: Config, interval: Seq<char>, grace: Seq<char>) -> bool {
    &&& c.watch.interval@ == interval
    &&& c.watch.grace_period@ == grace
    &&& c.watch.safe_word_hash@ == Seq::<char>::empty()
    &&& c.watch.duress_word_hash@ == Seq::<char>::empty()
    &&& c.watch.last_checkin is None
    &&& c.watch.checkin_history@.len() == 0
    &&& c.fleet.captains@.len() == 0
    &&& c.fleet.threshold == 2
    &&& c.smtp is None
    &&& c.cargo is None
    &&& c.scuttle is None
}

impl Config {
    /// A fresh configuration with the given check-in interval and grace period.
    pub fn new_voyage(interval: &str, grace: &str) -> (c: Config)
        ensures
            is_fresh_voyage(c, interval@, grace@),
    {
        Config {
            watch: WatchConfig {
                interval: String::from_str(interval),
                grace_period: String::from_str(grace),
                safe_word_hash: String::new(),
                duress_word_hash: String::new(),
                last_checkin: None,
                checkin_history: Vec::new(),
            },
            fleet: FleetConfig { captains: Vec::new(), threshold: 2 },
            smtp: None,
            cargo: None,
            scuttle: None,
        }
    }
}

impl Default for Config {
    /// 24h interval, 6h grace, no phrases, no captains, threshold 2, nothing else.
    fn default() -> (c: Config)
        ensures
            is_fresh_voyage(c, "24h"@, "6h"@),
    {
        Config::new_voyage("24h", "6h")
    }
}

/// The kind of a contact method, numbered in declaration order.
pub open spec fn contact_kind(c: ContactMethod) -> int {
    match c {
        ContactMethod::Email(_) => 0,
        ContactMethod::Signal(_) => 1,
        ContactMethod::Matrix(_) => 2,
        ContactMethod::Telegram(_) => 3,
        ContactMethod::Webhook(_) => 4,
    }
}

/// The address, number, room, chat or URL of a contact method.
pub open spec fn contact_value(c: ContactMethod) -> Seq<char> {
    match c {
        ContactMethod::Email(v) => v@,
        ContactMethod::Signal(v) => v@,
        ContactMethod::Matrix(v) => v@,
        ContactMethod::Telegram(v) => v@,
        ContactMethod::Webhook(v) => v@,
    }
}

impl ContactMethod {
    /// The contact written as `type:value`, such as `email:alice@example.com`.
    pub fn label(&self) -> (r: String)
        ensures
            r@ == kind_prefix(contact_kind(*self)) + contact_value(*self),
    {
        match self {
            ContactMethod::Email(v) => joined("email:", v.as_str()),
            ContactMethod::Signal(v) => joined("signal:", v.as_str()),
            ContactMethod::Matrix(v) => joined("matrix:", v.as_str()),
            ContactMethod::Telegram(v) => joined("telegram:", v.as_str()),
            ContactMethod::Webhook(v) => joined("webhook:", v.as_str()),
        }
    }

    /// The contact as the fleet roster shows it: `type: value`.
    pub fn roster_label(&self) -> (r: String)
        ensures
            r@ == roster_prefix(contact_kind(*self)) + contact_value(*self),
    {
        match self {
            ContactMethod::Email(v) => joined("email: ", v.as_str()),
            ContactMethod::Signal(v) => joined("signal: ", v.as_str()),
            ContactMethod::Matrix(v) => joined("matrix: ", v.as_str()),
            ContactMethod::Telegram(v) => joined("telegram: ", v.as_str()),
            ContactMethod::Webhook(v) => joined("webhook: ", v.as_str()),
        }
    }
}

/// What a contact's `type:value` text starts with, for each kind.
pub open spec fn kind_prefix(kind: int) -> Seq<char> {
    if kind == 0 {
        "email:"@
    } else if kind == 1 {
        "signal:"@
    } else if kind == 2 {
        "matrix:"@
    } else if kind == 3 {
        "telegram:"@
    } else {
        "webhook:"@
    }
}

/// What a contact's roster line starts with, for each kind.
pub open spec fn roster_prefix(kind: int) -> Seq<char> {
    if kind == 0 {
        "email: "@
    } else if kind == 1 {
        "signal: "@
    } else if kind == 2 {
        "matrix: "@
    } else if kind == 3 {
        "telegram: "@
    } else {
        "webhook: "@
    }
}

/// The kind whose label is `label`, if any.
pub open spec fn kind_of_label(label: Seq<char>) -> Option<int> {
    if label == "email"@ {
        Some(0)
    } else if label == "webhook"@ {
        Some(4)
    } else if label == "signal"@ {
        Some(1)
    } else if label == "matrix"@ {
        Some(2)
    } else if label == "telegram"@ {
        Some(3)
    } else {
        None
    }
}

/// `i` is the first position of `c` in `s`.
pub open spec fn first_index_of(s: Seq<char>, c: char, i: int) -> bool {
    &&& 0 <= i < s.len()
    &&& s[i] == c
    &&& forall|j: int| 0 <= j < i ==> s[j] != c
}

/// The message for a contact string without a `:`.
pub open spec fn bad_contact_format_message() -> Seq<char> {
    "Invalid contact format. Use: type:value (e.g., email:alice@example.com)"@
}

/// What parsing a `type:value` contact string gives: split at the first `:`, the type
/// compared case-insensitively (see `lowered`), the value kept as written.
pub open spec fn parsed_contact(s: Seq<char>, r: Result<ContactMethod, String>) -> bool {
    if forall|j: int| 0 <= j < s.len() ==> s[j] != ':' {
        r matches Err(msg) && msg@ == bad_contact_format_message()
    } else {
        exists|i: int|
            #![trigger first_index_of(s, ':', i)]
            first_index_of(s, ':', i) && match kind_of_label(lowered(s.subrange(0, i))) {
                Some(kind) => r matches Ok(m) && contact_kind(m) == kind && contact_value(m)
                    == s.subrange(i + 1, s.len() as int),
                None => r matches Err(msg) && msg@ == "Unknown contact type: "@ + s.subrange(
                    0,
                    i,
                ),
            }
    }
}

/// Parses a contact string such as `email:alice@example.com` or `webhook:https://...`.
pub fn parse_contact(s: &str) -> (r: Result<ContactMethod, String>)
    ensures
        parsed_contact(s@, r),
{
    let n = s.unicode_len();
    let mut i: usize = 0;
    while i < n && s.get_char(i) != ':'
        invariant
            n == s@.len(),
            i <= n,
            forall|j: int| 0 <= j < i ==> s@[j] != ':',
        decreases n - i,
    {
        i = i + 1;
    }
    if i == n {
        return Err(String::from_str(bad_contact_format_text()));
    }
    assert(first_index_of(s@, ':', i as int));
    let kind_text = s.substring_char(0, i);
    let value = String::from_str(s.substring_char(i + 1, n));
    let lower_text = to_lowercase(kind_text);
    let kind = lower_text.as_str();
    if str_eq(kind, "email") {
        Ok(ContactMethod::Email(value))
    } else if str_eq(kind, "webhook") {
        Ok(ContactMethod::Webhook(value))
    } else if str_eq(kind, "signal") {
        Ok(ContactMethod::Signal(value))
    } else if str_eq(kind, "matrix") {
        Ok(ContactMethod::Matrix(value))
    } else if str_eq(kind, "telegram") {
        Ok(ContactMethod::Telegram(value))
    } else {
        Err(joined("Unknown contact type: ", kind_text))
    }
}

/// The first `:` of a contact label is the one that ends its type.
proof fn lemma_label_colon(prefix: Seq<char>, v: Seq<char>, k: int)
    requires
        k == prefix.len() - 1,
        k >= 0,
        prefix[k] == ':',
        forall|j: int| 0 <= j < k ==> prefix[j] != ':',
    ensures
        first_index_of(prefix + v, ':', k),
        forall|i: int| #[trigger] first_index_of(prefix + v, ':', i) ==> i == k,
        (prefix + v).subrange(0, k) == prefix.subrange(0, k),
        (prefix + v).subrange(k + 1, (prefix + v).len() as int) == v,
{
    assert((prefix + v).subrange(0, k) =~= prefix.subrange(0, k));
    assert((prefix + v).subrange(k + 1, (prefix + v).len() as int) =~= v);
}

/// A contact's `type:value` text parses back to the same contact: the same kind and the
/// whole value, even when the value holds a `:`.
pub proof fn lemma_label_parses_back(m: ContactMethod, r: Result<ContactMethod, String>)
    requires
        parsed_contact(kind_prefix(contact_kind(m)) + contact_value(m), r),
    ensures
        r matches Ok(back) && contact_kind(back) == contact_kind(m) && contact_value(back) == contact_value(m),
{
    let k = contact_kind(m);
    let p = kind_prefix(k);
    let v = contact_value(m);
    let s = p + v;
    reveal_strlit("email:");
    reveal_strlit("signal:");
    reveal_strlit("matrix:");
    reveal_strlit("telegram:");
    reveal_strlit("webhook:");
    reveal_strlit("email");
    reveal_strlit("signal");
    reveal_strlit("matrix");
    reveal_strlit("telegram");
    reveal_strlit("webhook");
    let c = p.len() - 1;
    lemma_label_colon(p, v, c);
    assert(s[c] == ':');
    let t = p.subrange(0, c);
    if k == 0 {
        assert(t =~= "email"@);
        assert(kind_of_label(t) == Some(k));
    } else if k == 1 {
        assert(t =~= "signal"@);
        assert(kind_of_label(t) == Some(k));
    } else if k == 2 {
        assert(t =~= "matrix"@);
        assert(t[0] != "signal"@[0]);
        assert(kind_of_label(t) == Some(k));
    } else if k == 3 {
        assert(t =~= "telegram"@);
        assert(t[0] != "webhook"@[0]);
        assert(kind_of_label(t) == Some(k));
    } else {
        assert(t =~= "webhook"@);
        assert(kind_of_label(t) == Some(k));
    }
    assert(all_ascii(t));
    assert(ascii_lowered(t) =~= t);
    assert(lowered(t) == t);
    assert(kind_of_label(t) == Some(k));
}

/// The message for a contact string without a `:`.
fn bad_contact_format_text() -> (r: &'static str)
    ensures
        r@ == bad_contact_format_message(),
{
    "Invalid contact format. Use: type:value (e.g., email:alice@example.com)"
}

} // verus!
