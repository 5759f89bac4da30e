//! The ways an operation of the library can fail.

use vstd::prelude::*;
use crate::text::{decimal, decimal_u64, joined};

verus! {

/// All the ways an operation can fail. Variants that carried an outside error
/// (I/O, JSON, TOML) carry its rendered message here.
#[derive(Debug, Clone, PartialEq, Eq)]
pub enum Error {
    /// The configuration is corrupted or invalid.
    Config(String),
    /// No configuration exists yet.
    NoConfig,
    /// The watch expired; the text says how long ago.
    WatchExpired(String),
    /// The duress phrase was used.
    DuressDetected,
    /// The check-in phrase was wrong.
    InvalidCode,
    /// Encryption, key derivation or secret sharing failed.
    Crypto(String),
    /// Fewer shares than the threshold were given.
    InsufficientShares { need: u8, have: u8 },
    /// A notification could not be delivered.
    Notification(String),
    /// An I/O operation failed.
    Io(String),
    /// JSON serialization failed.
    Serde(String),
    /// TOML parsing failed.
    Toml(String),
}

/// The text shown for an error.
pub open spec fn error_message(e: Error) -> Seq<char> {
    match e {
        Error::Config(s) => "Config error: "@ + s@,
        Error::NoConfig => "No config found. Run `dead-reckoning init` first."@,
        Error::WatchExpired(s) => "Watch expired "@ + s@ + " ago. The fleet has been notified."@,
        Error::DuressDetected => "Duress detected. Silent alert sent to fleet."@,
        Error::InvalidCode => "Invalid check-in code"@,
        Error::Crypto(s) => "Crypto error: "@ + s@,
        Error::InsufficientShares { need, have } =>
            "Not enough captains to reconstruct secret. Need "@ + decimal(need as int) + ", have "@
                + decimal(have as int) + "."@,
        Error::Notification(s) => "Notification failed: "@ + s@,
        Error::Io(s) => "IO error: "@ + s@,
        Error::Serde(s) => "Serialization error: "@ + s@,
        Error::Toml(s) => "TOML error: "@ + s@,
    }
}

impl Error {
    /// The text shown for this error.
    pub fn message(&self) -> (r: String)
        ensures
            r@ == error_message(*self),
    {
        match self {
            Error::Config(s) => joined("Config error: ", s.as_str()),
            Error::NoConfig => String::from_str("No config found. Run `dead-reckoning init` first."),
            Error::WatchExpired(s) => {
                let head = joined("Watch expired ", s.as_str());
                joined(head.as_str(), " ago. The fleet has been notified.")
            },
            Error::DuressDetected => String::from_str("Duress detected. Silent alert sent to fleet."),
            Error::InvalidCode => String::from_str("Invalid check-in code"),
            Error::Crypto(s) => joined("Crypto error: ", s.as_str()),
            Error::InsufficientShares { need, have } => {
                let need_text = decimal_u64(*need as u64);
                let have_text = decimal_u64(*have as u64);
                let mut r = String::from_str("Not enough captains to reconstruct secret. Need ");
                r.append(need_text.as_str());
                r.append(", have ");
                r.append(have_text.as_str());
                r.append(".");
                r
            },
            Error::Notification(s) => joined("Notification failed: ", s.as_str()),
            Error::Io(s) => joined("IO error: ", s.as_str()),
            Error::Serde(s) => joined("Serialization error: ", s.as_str()),
            Error::Toml(s) => joined("TOML error: ", s.as_str()),
        }
    }
}

} // verus!
