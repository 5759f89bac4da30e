//! The pictures the command line shows.

use vstd::prelude::*;

verus! {

/// The banner shown when a voyage starts.
pub const BANNER: &'static str = r#"
    ⚓ DEAD RECKONING ⚓

    "When the captain goes silent,
     the fleet gets the message."

"#;

/// The kraken, shown when the watch has expired.
pub const KRAKEN: &'static str = r#"
       ___
    .-'   `'.
   /         \
  |  (o) (o)  |
  |     ^     |
  |  '-----'  |
   \  `===`  /
    '-.....-'
   /|       |\
  / |  |||  | \
 /  |  |||  |  \
    |__|||__|
     KRAKEN RELEASED
"#;

/// Calm seas, shown when all is well.
pub const CLEAR_SKIES: &'static str = r#"
      ~  ~
   ~        ~
  ~    ⛵    ~
 ~~~~~~~~~~~~~~~~
   Seas are calm
"#;

/// A storm, shown when a check-in is due soon or the grace period runs.
pub const STORM_BREWING: &'static str = r#"
     ⛈️  ⛈️
   ~~~~~~~~~
  ~~~~~~~~~~~
    ⚠️ STORM
    BREWING
"#;

} // verus!
