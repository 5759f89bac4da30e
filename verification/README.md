# Dead Reckoning

A dead man's switch: check in with a safe phrase at a regular interval, or your trusted
contacts (the fleet) are told. A duress phrase looks like a normal check-in but marks the
captain as compromised. Around that sit encrypted cargo, Shamir secret sharing, secure
deletion, a lookout for odd check-in timing, and a sentinel that scans the running
processes for spyware.

## Layout

- `src/` is the library, written in Verus. Every function there is verified against its
  contract; calls into `chrono`, `sha2`, `hex`, `argon2`, `aes-gcm`, `rand`, `sharks` and
  `sysinfo` go through small trusted wrappers whose contracts say what those crates
  document.
  - `watch.rs`: phrases, check-ins, status over time, durations.
  - `lookout.rs`: judging the timing of a check-in against the recent ones.
  - `parley.rs`: one check-in as the command line makes it: the timing judged against the
    recent check-ins first, the check-in recorded, or a silent alert after the duress phrase.
  - `fleet/`: the contacts, what each is sent and how, and secret sharing (`shares.rs`).
  - `cargo/`: sealing with AES-256-GCM under an Argon2 key, and the archive framing;
    packed cargo starts with its salt, so the password alone opens it.
  - `scuttle/`: wipe passes, chunks and the report of a secure deletion.
  - `sentinel/`: judging processes, the overall threat level and the scan report.
  - `daemon/`: what the background watchman does at each look at the watch.
  - `config.rs`, `error.rs`, `clock.rs`, `text.rs`, `art.rs`: settings, errors, time,
    text helpers and the console pictures.
- `app/` is the command line around the library: arguments, the TOML settings file, the
  console, SMTP and webhooks, the file system and the daemon's loop.
- `tests/` exercises the library on concrete values.

## Share format

A secret is split together with a tag, the first eight bytes of its SHA-256 digest, so that
shares from different splits are refused when put together instead of rebuilding a wrong
secret. Each share is therefore the x coordinate byte (1, 2, ...) followed by the secret's
length plus eight bytes, nine bytes more than the secret.
