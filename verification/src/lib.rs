//! Dead Reckoning: a dead man's switch whose decisions are verified.

pub mod art;
pub mod cargo;
pub mod clock;
pub mod config;
pub mod daemon;
pub mod error;
pub mod fleet;
pub mod lookout;
pub mod parley;
pub mod scuttle;
pub mod sentinel;
pub mod text;
pub mod watch;

pub use config::Config;
pub use error::Error;
pub use art::{BANNER, CLEAR_SKIES, KRAKEN, STORM_BREWING};
