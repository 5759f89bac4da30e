//! The fleet: the trusted contacts, and what they are told when the captain goes silent.
//! Delivering the messages (SMTP, webhooks) happens outside the library.

pub mod shares;

use vstd::prelude::*;
use crate::config::{Captain, Config, ContactMethod, SmtpConfig, contact_kind, contact_value, roster_prefix};
use crate::error::{Error, error_message};
use crate::text::{decimal, decimal_u64, joined};

verus! {

/// The fleet over a configuration.
pub struct Fleet {
    config: Config,
}

/// The distress signal sent to the fleet.
#[derive(Debug, Clone)]
pub struct DistressSignal {
    /// The message itself.
    pub message: String,
    /// Whether encrypted cargo comes with it.
    pub cargo_attached: bool,
    /// A duress alert (silent alarm) rather than an expiry.
    pub is_duress: bool,
}

/// The outcome of notifying one captain.
#[derive(Debug, Clone)]
pub struct NotifyResult {
    /// The captain's name.
    pub captain: String,
    /// Whether the notification went out.
    pub success: bool,
    /// Why it did not.
    pub error: Option<String>,
}

impl Fleet {
    /// The configuration the fleet reads.
    pub closed spec fn spec_config(&self) -> Config {
        self.config
    }

    /// A fleet over the given configuration.
    pub fn new(config: Config) -> (f: Fleet)
        ensures
            f.spec_config() == config,
    {
        Fleet { config }
    }

    /// The captains, in roster order.
    pub fn captains(&self) -> (r: &[Captain])
        ensures
            r@ == self.spec_config().fleet.captains@,
    {
        self.config.fleet.captains.as_slice()
    }

    /// How many captains are needed to rebuild a shared secret.
    pub fn threshold(&self) -> (r: u8)
        ensures
            r == self.spec_config().fleet.threshold,
    {
        self.config.fleet.threshold
    }

    /// The SMTP settings, if email is configured.
    pub fn smtp(&self) -> (r: &Option<SmtpConfig>)
        ensures
            *r == self.spec_config().smtp,
    {
        &self.config.smtp
    }
}

impl NotifyResult {
    /// The result for a captain from the outcome of notifying them: success when it went
    /// out, otherwise the error's text.
    pub fn from_outcome(captain: &Captain, outcome: &Result<(), Error>) -> (r: NotifyResult)
        ensures
            r.captain@ == captain.name@,
            r.success == outcome is Ok,
            match outcome {
                Ok(_) => r.error is None,
                Err(e) => r.error matches Some(m) && m@ == error_message(*e),
            },
    {
        match outcome {
            Ok(_) => NotifyResult { captain: captain.name.clone(), success: true, error: None },
            Err(e) => NotifyResult {
                captain: captain.name.clone(),
                success: false,
                error: Some(e.message()),
            },
        }
    }
}

/// The subject of the email for a signal.
pub open spec fn subject_text(is_duress: bool) -> Seq<char> {
    if is_duress {
        "URGENT: Dead Reckoning - DURESS ALERT"@
    } else {
        "Dead Reckoning - Watch Expired"@
    }
}

/// The subject of the email for a signal.
pub fn email_subject(signal: &DistressSignal) -> (r: &'static str)
    ensures
        r@ == subject_text(signal.is_duress),
{
    if signal.is_duress {
        "URGENT: Dead Reckoning - DURESS ALERT"
    } else {
        "Dead Reckoning - Watch Expired"
    }
}

/// The type of an email: DURESS or EXPIRED.
pub open spec fn email_type_text(is_duress: bool) -> Seq<char> {
    if is_duress {
        "DURESS"@
    } else {
        "EXPIRED"@
    }
}

/// Yes or No.
pub open spec fn yes_no_text(b: bool) -> Seq<char> {
    if b {
        "Yes"@
    } else {
        "No"@
    }
}

/// The plain-text body of the email for a signal, stamped with `timestamp`.
pub open spec fn body_text(message: Seq<char>, timestamp: Seq<char>, is_duress: bool, cargo: bool) -> Seq<char> {
    message + "\n\n---\nThis is an automated message from Dead Reckoning.\nThe watch has expired and the captain has not checked in.\n\nTimestamp: "@
        + timestamp + "\nType: "@ + email_type_text(is_duress) + "\nCargo attached: "@ + yes_no_text(cargo)
        + "\n\nIf you received this message, please follow the pre-arranged protocol.\nMay fair winds guide yer actions. Cheerio.\n"@
}

/// The plain-text body of the email for a signal, stamped with `timestamp` (RFC 3339).
pub fn email_body(signal: &DistressSignal, timestamp: &str) -> (r: String)
    ensures
        r@ == body_text(signal.message@, timestamp@, signal.is_duress, signal.cargo_attached),
{
    let mut r = String::from_str(signal.message.as_str());
    r.append("\n\n---\nThis is an automated message from Dead Reckoning.\nThe watch has expired and the captain has not checked in.\n\nTimestamp: ");
    r.append(timestamp);
    r.append("\nType: ");
    r.append(if signal.is_duress { "DURESS" } else { "EXPIRED" });
    r.append("\nCargo attached: ");
    r.append(if signal.cargo_attached { "Yes" } else { "No" });
    r.append("\n\nIf you received this message, please follow the pre-arranged protocol.\nMay fair winds guide yer actions. Cheerio.\n");
    r
}

/// The mailbox an email is addressed to: `name <address>`.
pub fn email_recipient(name: &str, address: &str) -> (r: String)
    ensures
        r@ == name@ + " <"@ + address@ + ">"@,
{
    let mut r = joined(name, " <");
    r.append(address);
    r.append(">");
    r
}

/// The `type` of a webhook payload: DURESS or DISTRESS.
pub fn webhook_kind(signal: &DistressSignal) -> (r: &'static str)
    ensures
        r@ == (if signal.is_duress { "DURESS"@ } else { "DISTRESS"@ }),
{
    if signal.is_duress {
        "DURESS"
    } else {
        "DISTRESS"
    }
}

/// The message of a manual distress signal when none is given.
pub fn default_distress_message(is_duress: bool) -> (r: &'static str)
    ensures
        r@ == (if is_duress {
            "DURESS SIGNAL - Captain may be compromised"@
        } else {
            "Watch expired - Captain has not checked in"@
        }),
{
    if is_duress {
        "DURESS SIGNAL - Captain may be compromised"
    } else {
        "Watch expired - Captain has not checked in"
    }
}

/// A manual distress signal: the given message, or the default for the kind; no cargo.
pub fn manual_signal(message: Option<String>, is_duress: bool) -> (r: DistressSignal)
    ensures
        r.is_duress == is_duress,
        !r.cargo_attached,
        match message {
            Some(m) => r.message == m,
            None => r.message@ == (if is_duress {
                "DURESS SIGNAL - Captain may be compromised"@
            } else {
                "Watch expired - Captain has not checked in"@
            }),
        },
{
    let text = match message {
        Some(m) => m,
        None => String::from_str(default_distress_message(is_duress)),
    };
    DistressSignal { message: text, cargo_attached: false, is_duress }
}

/// Keeps the captains whose name is not `name`.
pub open spec fn not_named(name: Seq<char>) -> spec_fn(Captain) -> bool {
    |c: Captain| c.name@ != name
}

/// Removes every captain with the given name, keeping the others in order. Returns how many
/// were removed.
pub fn remove_captains_named(captains: &mut Vec<Captain>, name: &str) -> (removed: usize)
    ensures
        final(captains)@ == old(captains)@.filter(not_named(name@)),
        removed == old(captains)@.len() - final(captains)@.len(),
{
    let mut rest: Vec<Captain> = Vec::new();
    std::mem::swap(&mut rest, captains);
    let ghost orig = rest@;
    let ghost pred = not_named(name@);
    let n = rest.len();
    assert(orig.subrange(0, 0).filter(pred) =~= Seq::<Captain>::empty());
    assert(orig.subrange(0, n as int) =~= orig);
    while rest.len() > 0
        invariant
            orig == old(captains)@,
            pred == not_named(name@),
            n == orig.len(),
            rest@.len() <= n,
            rest@ == orig.subrange(n - rest@.len(), n as int),
            captains@ == orig.subrange(0, n - rest@.len()).filter(pred),
            captains@.len() <= n - rest@.len(),
        decreases rest@.len(),
    {
        let ghost k = n - rest@.len();
        let c = rest.remove(0);
        proof {
            let s = orig.subrange(0, k + 1);
            assert(s.drop_last() =~= orig.subrange(0, k));
            assert(s.last() == c);
            reveal_with_fuel(Seq::<_>::filter, 1);
            assert(s.filter(pred) == (if pred(c) {
                orig.subrange(0, k).filter(pred).push(c)
            } else {
                orig.subrange(0, k).filter(pred)
            }));
            assert(rest@ =~= orig.subrange(k + 1, n as int));
        }
        let keep = !crate::text::str_eq(c.name.as_str(), name);
        if keep {
            captains.push(c);
        }
    }
    n - captains.len()
}

/// How one captain is to be reached for a signal.
#[derive(Debug, Clone)]
pub enum Delivery {
    /// An email through the configured SMTP server.
    Email {
        /// The server settings.
        smtp: SmtpConfig,
        /// The mailbox, as `name <address>`.
        to: String,
        /// The subject line.
        subject: String,
        /// The plain-text body.
        body: String,
    },
    /// A JSON payload posted to a webhook.
    Webhook {
        /// Where to post.
        url: String,
        /// DURESS or DISTRESS.
        kind: String,
        /// The signal's message.
        message: String,
        /// Whether cargo comes with the signal.
        cargo_attached: bool,
        /// When the signal was raised (RFC 3339).
        timestamp: String,
    },
    /// Nothing is sent; a line is logged and the captain counts as notified.
    Logged {
        /// The line to log.
        line: String,
    },
}

/// A delivery as plain values.
pub enum DeliveryView {
    Email { smtp: SmtpConfig, to: Seq<char>, subject: Seq<char>, body: Seq<char> },
    Webhook { url: Seq<char>, kind: Seq<char>, message: Seq<char>, cargo_attached: bool, timestamp: Seq<char> },
    Logged { line: Seq<char> },
}

impl View for Delivery {
    type V = DeliveryView;

    open spec fn view(&self) -> DeliveryView {
        match self {
            Delivery::Email { smtp, to, subject, body } => DeliveryView::Email {
                smtp: *smtp,
                to: to@,
                subject: subject@,
                body: body@,
            },
            Delivery::Webhook { url, kind, message, cargo_attached, timestamp } => DeliveryView::Webhook {
                url: url@,
                kind: kind@,
                message: message@,
                cargo_attached: *cargo_attached,
                timestamp: timestamp@,
            },
            Delivery::Logged { line } => DeliveryView::Logged { line: line@ },
        }
    }
}

/// How a captain is reached for a signal raised at `timestamp`: email through SMTP when it
/// is configured (else only logged); a webhook post; Signal, Matrix and Telegram are logged.
pub open spec fn delivery_spec(smtp: Option<SmtpConfig>, c: Captain, s: DistressSignal, timestamp: Seq<char>) -> DeliveryView {
    match c.contact {
        ContactMethod::Email(addr) => match smtp {
            Some(server) => DeliveryView::Email {
                smtp: server,
                to: c.name@ + " <"@ + addr@ + ">"@,
                subject: subject_text(s.is_duress),
                body: body_text(s.message@, timestamp, s.is_duress, s.cargo_attached),
            },
            None => DeliveryView::Logged {
                line: "[EMAIL] SMTP not configured. Would send to "@ + addr@ + ": "@ + s.message@,
            },
        },
        ContactMethod::Webhook(url) => DeliveryView::Webhook {
            url: url@,
            kind: if s.is_duress { "DURESS"@ } else { "DISTRESS"@ },
            message: s.message@,
            cargo_attached: s.cargo_attached,
            timestamp,
        },
        ContactMethod::Signal(_) => DeliveryView::Logged { line: "[SIGNAL] Would send: "@ + s.message@ },
        ContactMethod::Matrix(_) => DeliveryView::Logged { line: "[MATRIX] Would send: "@ + s.message@ },
        ContactMethod::Telegram(_) => DeliveryView::Logged { line: "[TELEGRAM] Would send: "@ + s.message@ },
    }
}

/// The views of a run of deliveries.
pub open spec fn delivery_views(v: Seq<Delivery>) -> Seq<DeliveryView> {
    v.map_values(|d: Delivery| d@)
}

/// A notification result as plain values: the captain, success, and the error's text.
pub open spec fn notify_view(r: NotifyResult) -> (Seq<char>, bool, Option<Seq<char>>) {
    (r.captain@, r.success, match r.error {
        Some(m) => Some(m@),
        None => None,
    })
}

/// The result of notifying a captain with an outcome, as plain values.
pub open spec fn outcome_view(c: Captain, o: Result<(), Error>) -> (Seq<char>, bool, Option<Seq<char>>) {
    (c.name@, o is Ok, match o {
        Ok(_) => None,
        Err(e) => Some(error_message(e)),
    })
}

/// A field-for-field copy of SMTP settings.
fn smtp_copy(s: &SmtpConfig) -> (r: SmtpConfig)
    ensures
        r == *s,
{
    SmtpConfig {
        host: s.host.clone(),
        port: s.port,
        username: s.username.clone(),
        password: s.password.clone(),
        from: s.from.clone(),
        starttls: s.starttls,
    }
}

/// A logged line: a tag, then the text.
fn tagged(tag: &str, text: &str) -> (r: String)
    ensures
        r@ == tag@ + text@,
{
    joined(tag, text)
}

impl Fleet {
    /// How a captain is to be reached for a signal raised at `timestamp` (RFC 3339).
    pub fn delivery_for(&self, captain: &Captain, signal: &DistressSignal, timestamp: &str) -> (r: Delivery)
        ensures
            r@ == delivery_spec(self.spec_config().smtp, *captain, *signal, timestamp@),
    {
        match &captain.contact {
            ContactMethod::Email(addr) => match &self.config.smtp {
                Some(server) => Delivery::Email {
                    smtp: smtp_copy(server),
                    to: email_recipient(captain.name.as_str(), addr.as_str()),
                    subject: String::from_str(email_subject(signal)),
                    body: email_body(signal, timestamp),
                },
                None => {
                    let mut line = joined("[EMAIL] SMTP not configured. Would send to ", addr.as_str());
                    line.append(": ");
                    line.append(signal.message.as_str());
                    Delivery::Logged { line }
                },
            },
            ContactMethod::Webhook(url) => Delivery::Webhook {
                url: url.clone(),
                kind: String::from_str(webhook_kind(signal)),
                message: signal.message.clone(),
                cargo_attached: signal.cargo_attached,
                timestamp: String::from_str(timestamp),
            },
            ContactMethod::Signal(_) => Delivery::Logged { line: tagged("[SIGNAL] Would send: ", signal.message.as_str()) },
            ContactMethod::Matrix(_) => Delivery::Logged { line: tagged("[MATRIX] Would send: ", signal.message.as_str()) },
            ContactMethod::Telegram(_) => Delivery::Logged { line: tagged("[TELEGRAM] Would send: ", signal.message.as_str()) },
        }
    }

    /// How each captain is to be reached for a signal, in roster order.
    pub fn distress_plan(&self, signal: &DistressSignal, timestamp: &str) -> (r: Vec<Delivery>)
        ensures
            r@.len() == self.spec_config().fleet.captains@.len(),
            forall|i: int|
                0 <= i < r@.len() ==> #[trigger] r@[i]@ == delivery_spec(
                    self.spec_config().smtp,
                    self.spec_config().fleet.captains@[i],
                    *signal,
                    timestamp@,
                ),
    {
        let captains = self.config.fleet.captains.as_slice();
        let mut plan: Vec<Delivery> = Vec::new();
        let n = captains.len();
        let mut i: usize = 0;
        while i < n
            invariant
                captains@ == self.spec_config().fleet.captains@,
                n == captains@.len(),
                i <= n,
                plan@.len() == i,
                forall|k: int|
                    0 <= k < i ==> #[trigger] plan@[k]@ == delivery_spec(
                        self.spec_config().smtp,
                        captains@[k],
                        *signal,
                        timestamp@,
                    ),
            decreases n - i,
        {
            let d = self.delivery_for(&captains[i], signal, timestamp);
            plan.push(d);
            i = i + 1;
        }
        plan
    }

    /// The results of a distress signal from the outcome of each captain's delivery, in
    /// roster order.
    pub fn distress_results(&self, outcomes: &[Result<(), Error>]) -> (r: Vec<NotifyResult>)
        requires
            outcomes@.len() == self.spec_config().fleet.captains@.len(),
        ensures
            r@.len() == outcomes@.len(),
            forall|i: int|
                0 <= i < r@.len() ==> notify_view(#[trigger] r@[i]) == outcome_view(
                    self.spec_config().fleet.captains@[i],
                    outcomes@[i],
                ),
    {
        let captains = self.config.fleet.captains.as_slice();
        let mut results: Vec<NotifyResult> = Vec::new();
        let n = outcomes.len();
        let mut i: usize = 0;
        while i < n
            invariant
                captains@ == self.spec_config().fleet.captains@,
                n == outcomes@.len(),
                n == captains@.len(),
                i <= n,
                results@.len() == i,
                forall|k: int|
                    0 <= k < i ==> notify_view(#[trigger] results@[k]) == outcome_view(captains@[k], outcomes@[k]),
            decreases n - i,
        {
            let r = NotifyResult::from_outcome(&captains[i], &outcomes[i]);
            results.push(r);
            i = i + 1;
        }
        results
    }
}

/// The roster line of a captain, numbered `number`: `  number. name (kind: value)`.
pub open spec fn roster_line(number: int, c: Captain) -> Seq<char> {
    "  "@ + decimal(number) + ". "@ + c.name@ + " ("@ + roster_prefix(contact_kind(c.contact)) + contact_value(
        c.contact,
    ) + ")\n"@
}

/// The roster lines of captains, numbered from one.
pub open spec fn roster_lines(cs: Seq<Captain>) -> Seq<char>
    decreases cs.len(),
{
    if cs.len() == 0 {
        Seq::empty()
    } else {
        roster_lines(cs.drop_last()) + roster_line(cs.len() as int, cs.last())
    }
}

/// The roster of the fleet: one numbered line per captain, or a note that there are none.
pub fn roster_text(captains: &[Captain]) -> (r: String)
    ensures
        r@ == (if captains@.len() == 0 {
            "No captains enlisted.\n"@
        } else {
            roster_lines(captains@)
        }),
{
    if captains.len() == 0 {
        return String::from_str("No captains enlisted.\n");
    }
    let mut out = String::new();
    let n = captains.len();
    let mut i: usize = 0;
    while i < n
        invariant
            n == captains@.len(),
            i <= n,
            out@ == roster_lines(captains@.subrange(0, i as int)),
        decreases n - i,
    {
        proof {
            let s = captains@.subrange(0, i + 1);
            assert(s.drop_last() =~= captains@.subrange(0, i as int));
        }
        let number = decimal_u64(i as u64 + 1);
        let contact = captains[i].contact.roster_label();
        out.append("  ");
        out.append(number.as_str());
        out.append(". ");
        out.append(captains[i].name.as_str());
        out.append(" (");
        out.append(contact.as_str());
        out.append(")\n");
        i = i + 1;
    }
    assert(captains@.subrange(0, n as int) =~= captains@);
    out
}

/// After removing a name, no remaining captain has it, and every captain with another name
/// remains.
pub proof fn lemma_removed_name_absent(captains: Seq<Captain>, name: Seq<char>)
    ensures
        forall|k: int|
            0 <= k < captains.filter(not_named(name)).len() ==> #[trigger] captains.filter(not_named(name))[k].name@
                != name,
        forall|c: Captain| #[trigger] captains.contains(c) && c.name@ != name ==> captains.filter(not_named(name)).contains(c),
{
    let kept = captains.filter(not_named(name));
    assert forall|k: int| 0 <= k < kept.len() implies #[trigger] kept[k].name@ != name by {
        captains.lemma_filter_pred(not_named(name), k);
    }
    assert forall|c: Captain| #[trigger] captains.contains(c) && c.name@ != name implies kept.contains(c) by {
        let i = choose|i: int| 0 <= i < captains.len() && captains[i] == c;
        captains.lemma_filter_contains(not_named(name), i);
    }
}

/// A webhook post carries the signal's message and is typed by whether the signal is a
/// duress alarm: DURESS exactly for duress signals, DISTRESS for the others. A captain with
/// a webhook is always reached by one.
pub proof fn lemma_webhook_typed_by_duress(smtp: Option<SmtpConfig>, c: Captain, s: DistressSignal, t: Seq<char>)
    ensures
        c.contact is Webhook ==> delivery_spec(smtp, c, s, t) is Webhook,
        delivery_spec(smtp, c, s, t) matches DeliveryView::Webhook { kind, message, cargo_attached, .. } ==> {
            &&& kind == "DURESS"@ || kind == "DISTRESS"@
            &&& (kind == "DURESS"@ <==> s.is_duress)
            &&& message == s.message@
            &&& cargo_attached == s.cargo_attached
        },
{
    reveal_strlit("DURESS");
    reveal_strlit("DISTRESS");
    assert("DURESS"@ != "DISTRESS"@) by {
        assert("DURESS"@.len() != "DISTRESS"@.len());
    }
}

} // verus!
