//! Shamir's secret sharing over GF(256), by the `sharks` crate: split a secret so that any
//! `threshold` of the shares rebuild it.
//!
//! Share format. What is split is the secret followed by a tag, the first eight bytes of
//! its SHA-256 digest. This is a deliberate choice: without it, shares of different splits
//! put together would rebuild a wrong secret with no error, and reconstructing is meant to
//! refuse them. The price is that a share is nine bytes longer than the secret, not one: a
//! byte for its x coordinate (1 for the first share, 2 for the next, ...), then one byte per
//! byte of the secret and of the tag. Shares made without the tag are refused as mixed.

use vstd::prelude::*;
use crate::cargo::byte_views;
use crate::error::Error;
use crate::text::{bytes_eq, decimal, joined, trim, trimmed_of};
use crate::watch::{hex_encode, hex_lower, sha256, sha256_of};
use vstd::slice::{slice_subrange, slice_to_vec};

verus! {

/// The secret that Lagrange interpolation at x = 0 gives for shares of one length, each
/// at least two bytes (x, then the y of each secret byte), over GF(256).
pub uninterp spec fn shamir_interpolated(shares: Seq<Seq<u8>>) -> Seq<u8>;

/// The distinct x coordinates (first bytes) of the shares.
pub open spec fn share_keys(shares: Seq<Seq<u8>>) -> Set<u8> {
    shares.map_values(|s: Seq<u8>| s[0]).to_set()
}

/// Every share has an x coordinate and at least one y byte.
pub open spec fn shares_parse(shares: Seq<Seq<u8>>) -> bool {
    forall|i: int| 0 <= i < shares.len() ==> #[trigger] shares[i].len() >= 2
}

/// All shares have the same length.
pub open spec fn shares_same_length(shares: Seq<Seq<u8>>) -> bool {
    forall|i: int, j: int|
        0 <= i < shares.len() && 0 <= j < shares.len() ==> #[trigger] shares[i].len() == #[trigger] shares[j].len()
}

/// What `sharks` recovers from shares under a threshold: the interpolated secret when the
/// shares parse, have one length, and have at least one and at least `threshold` distinct
/// x coordinates; nothing otherwise.
pub open spec fn recovered_secret(threshold: u8, shares: Seq<Seq<u8>>) -> Option<Seq<u8>> {
    if shares_parse(shares) && shares_same_length(shares) && share_keys(shares).len() > 0
        && share_keys(shares).len() >= threshold {
        Some(shamir_interpolated(shares))
    } else {
        None
    }
}

/// Why recovering failed, with the message `sharks` gave.
pub enum ShareFailure {
    /// A share did not parse.
    InvalidShare(String),
    /// The shares parsed but did not yield a secret.
    Recovery(String),
}

/// The message `sharks` gives when shares parse but yield no secret.
pub open spec fn recovery_refusal(shares: Seq<Seq<u8>>) -> Seq<char> {
    if !shares_same_length(shares) {
        "All shares must have the same length"@
    } else {
        "Not enough shares to recover original secret"@
    }
}

/// Wraps `Share::try_from` on each byte string and `Sharks(threshold).recover`. The first
/// share shorter than two bytes fails to parse; otherwise the result is what
/// `recovered_secret` says, or the refusal `recovery_refusal` describes.
#[verifier::external_body]
pub(crate) fn sharks_recover(threshold: u8, shares: &[Vec<u8>]) -> (r: Result<Vec<u8>, ShareFailure>)
    ensures
        match r {
            Ok(v) => recovered_secret(threshold, byte_views(shares@)) == Some(v@),
            Err(ShareFailure::InvalidShare(m)) => !shares_parse(byte_views(shares@)) && m@
                == "A Share must be at least 2 bytes long"@,
            Err(ShareFailure::Recovery(m)) => shares_parse(byte_views(shares@)) && recovered_secret(
                threshold,
                byte_views(shares@),
            ) is None && m@ == recovery_refusal(byte_views(shares@)),
        },
{
    let mut parsed: Vec<sharks::Share> = Vec::new();
    for s in shares {
        match sharks::Share::try_from(s.as_slice()) {
            Ok(share) => parsed.push(share),
            Err(e) => return Err(ShareFailure::InvalidShare(e.to_string())),
        }
    }
    sharks::Sharks(threshold).recover(&parsed).map_err(|e| ShareFailure::Recovery(e.to_string()))
}

/// `sel` is made of distinct shares taken from `shares`, in any order.
pub open spec fn is_selection_of(sel: Seq<Seq<u8>>, shares: Seq<Seq<u8>>) -> bool {
    &&& sel.no_duplicates()
    &&& forall|k: int| 0 <= k < sel.len() ==> shares.contains(#[trigger] sel[k])
}

/// Wraps `Sharks(threshold).dealer(secret).take(total)`, each share as bytes. The random
/// polynomials are not described; what is stated is that there are `total` shares, the
/// i-th with x coordinate i + 1 and one more byte than the secret, and that interpolating
/// any at-least-`threshold` distinct of them gives the secret back (for a secret of at
/// least one byte), as Shamir's scheme and the crate's documentation promise.
#[verifier::external_body]
pub(crate) fn sharks_deal(threshold: u8, secret: &[u8], total: u8) -> (r: Vec<Vec<u8>>)
    ensures
        r@.len() == total,
        forall|i: int|
            0 <= i < r@.len() ==> (#[trigger] r@[i])@.len() == secret@.len() + 1 && r@[i]@[0] == i + 1,
        forall|sel: Seq<Seq<u8>>|
            #![trigger shamir_interpolated(sel)]
            secret@.len() >= 1 && sel.len() >= 1 && sel.len() >= threshold && is_selection_of(
                sel,
                byte_views(r@),
            ) ==> shamir_interpolated(sel) == secret@,
{
    let mut out: Vec<Vec<u8>> = Vec::new();
    for share in sharks::Sharks(threshold).dealer(secret).take(total as usize) {
        out.push(Vec::from(&share));
    }
    out
}

/// A threshold scheme: how many shares rebuild a secret, and how many to make.
pub struct SecretSharing {
    threshold: u8,
    total: u8,
}

/// Bytes of tag after the secret.
pub const TAG_LEN: usize = 8;

/// The tag of a secret: the first eight bytes of its SHA-256 digest.
pub open spec fn secret_tag(secret: Seq<u8>) -> Seq<u8> {
    sha256_of(secret).subrange(0, TAG_LEN as int)
}

/// What is split for a secret: the secret followed by its tag.
pub open spec fn tagged(secret: Seq<u8>) -> Seq<u8> {
    secret + secret_tag(secret)
}

/// The secret inside a rebuilt payload, when its last eight bytes are the tag of the rest.
pub open spec fn untagged(p: Seq<u8>) -> Option<Seq<u8>> {
    if p.len() >= TAG_LEN && p.subrange(p.len() - TAG_LEN, p.len() as int) == secret_tag(
        p.subrange(0, p.len() - TAG_LEN),
    ) {
        Some(p.subrange(0, p.len() - TAG_LEN))
    } else {
        None
    }
}

/// What reconstructing gives: too few shares for the threshold first, then what `sharks`
/// recovers, when its tag checks out.
pub open spec fn reconstructed(threshold: u8, shares: Seq<Seq<u8>>) -> Option<Seq<u8>> {
    if shares.len() < threshold {
        None
    } else {
        match recovered_secret(threshold, shares) {
            Some(p) => untagged(p),
            None => None,
        }
    }
}

/// The message for shares that rebuild a payload whose tag does not match: they come from
/// different splits, or were altered.
pub open spec fn mixed_shares_message() -> Seq<char> {
    "Recovery failed: the shares do not belong to the same secret. Shares might be corrupted."@
}

/// The message of the error for shares that do not rebuild a secret (enough of them given).
pub open spec fn reconstruct_failure(threshold: u8, shares: Seq<Seq<u8>>) -> Seq<char> {
    if !shares_parse(shares) {
        "Invalid share: "@ + "A Share must be at least 2 bytes long"@ + ". Someone's been tamperin'."@
    } else if recovered_secret(threshold, shares) is None {
        "Recovery failed: "@ + recovery_refusal(shares) + ". Shares might be corrupted."@
    } else {
        mixed_shares_message()
    }
}

/// The secret inside a rebuilt payload, when its tag checks out.
fn open_payload(p: &[u8]) -> (r: Option<Vec<u8>>)
    ensures
        match r {
            Some(v) => untagged(p@) == Some(v@),
            None => untagged(p@) is None,
        },
{
    if p.len() < TAG_LEN {
        return None;
    }
    let cut = p.len() - TAG_LEN;
    let body = slice_subrange(p, 0, cut);
    let digest = sha256(body);
    let tag = slice_subrange(digest.as_slice(), 0, TAG_LEN);
    let last = slice_subrange(p, cut, p.len());
    if bytes_eq(last, tag) {
        Some(slice_to_vec(body))
    } else {
        None
    }
}

impl SecretSharing {
    /// How many shares rebuild the secret.
    pub closed spec fn spec_threshold(&self) -> u8 {
        self.threshold
    }

    /// How many shares a split makes.
    pub closed spec fn spec_total(&self) -> u8 {
        self.total
    }

    /// A scheme where `threshold` of `total` shares rebuild the secret. Nothing checks that
    /// the threshold is at most the total.
    pub fn new(threshold: u8, total: u8) -> (s: SecretSharing)
        ensures
            s.spec_threshold() == threshold,
            s.spec_total() == total,
    {
        SecretSharing { threshold, total }
    }

    /// Splits a secret into `total` shares: share i (from 0) starts with x coordinate i + 1
    /// and is `secret.len() + 9` bytes long (the tagged format described above), and any
    /// `threshold` distinct ones (and at least one) rebuild the secret.
    pub fn split(&self, secret: &[u8]) -> (r: Result<Vec<Vec<u8>>, Error>)
        ensures
            match r {
                Ok(shares) => {
                    &&& shares@.len() == self.spec_total()
                    &&& forall|i: int|
                        0 <= i < shares@.len() ==> (#[trigger] shares@[i])@.len() == secret@.len() + TAG_LEN + 1
                            && shares@[i]@[0] == i + 1
                    &&& forall|sel: Seq<Seq<u8>>|
                        #![trigger reconstructed(self.spec_threshold(), sel)]
                        sel.len() >= 1 && sel.len() >= self.spec_threshold() && is_selection_of(
                            sel,
                            byte_views(shares@),
                        ) ==> reconstructed(self.spec_threshold(), sel) == Some(secret@)
                },
                Err(_) => false,
            },
    {
        let digest = sha256(secret);
        let mut payload: Vec<u8> = slice_to_vec(secret);
        payload.extend_from_slice(slice_subrange(digest.as_slice(), 0, TAG_LEN));
        let ghost n = secret@.len() as int;
        proof {
            assert(payload@ =~= tagged(secret@));
            assert(payload@.subrange(0, n) =~= secret@);
            assert(payload@.subrange(n, n + TAG_LEN) =~= secret_tag(secret@));
            assert(untagged(payload@) == Some(secret@));
        }
        let shares = sharks_deal(self.threshold, payload.as_slice(), self.total);
        proof {
            let views = byte_views(shares@);
            assert forall|sel: Seq<Seq<u8>>|
                #![trigger reconstructed(self.threshold, sel)]
                sel.len() >= 1 && sel.len() >= self.threshold && is_selection_of(sel, views)
                implies reconstructed(self.threshold, sel) == Some(secret@) by {
                lemma_selection_recovers(sel, views, payload@.len() as int, self.threshold);
                assert(shamir_interpolated(sel) == payload@);
            }
        }
        Ok(shares)
    }

    /// Rebuilds the secret from shares. Fails with `InsufficientShares` below the
    /// threshold, and with a crypto error when the shares do not parse, do not yield a
    /// payload, or yield one whose tag does not match (shares of different splits).
    pub fn reconstruct(&self, shares: &[Vec<u8>]) -> (r: Result<Vec<u8>, Error>)
        ensures
            match r {
                Ok(v) => reconstructed(self.spec_threshold(), byte_views(shares@)) == Some(v@),
                Err(e) => reconstructed(self.spec_threshold(), byte_views(shares@)) is None && if shares@.len()
                    < self.spec_threshold() {
                    e == Error::InsufficientShares {
                        need: self.spec_threshold(),
                        have: shares@.len() as u8,
                    }
                } else {
                    e is Crypto && e->Crypto_0@ == reconstruct_failure(
                        self.spec_threshold(),
                        byte_views(shares@),
                    )
                },
            },
    {
        if shares.len() < self.threshold as usize {
            return Err(Error::InsufficientShares { need: self.threshold, have: shares.len() as u8 });
        }
        match sharks_recover(self.threshold, shares) {
            Ok(payload) => match open_payload(payload.as_slice()) {
                Some(secret) => Ok(secret),
                None => Err(Error::Crypto(String::from_str(
                    "Recovery failed: the shares do not belong to the same secret. Shares might be corrupted.",
                ))),
            },
            Err(ShareFailure::InvalidShare(m)) => {
                let mut msg = joined("Invalid share: ", m.as_str());
                msg.append(". Someone's been tamperin'.");
                Err(Error::Crypto(msg))
            },
            Err(ShareFailure::Recovery(m)) => {
                let mut msg = joined("Recovery failed: ", m.as_str());
                msg.append(". Shares might be corrupted.");
                Err(Error::Crypto(msg))
            },
        }
    }

}

/// Writes each share in lowercase hex.
pub fn shares_to_hex(shares: &[Vec<u8>]) -> (r: Vec<String>)
    ensures
        r@.len() == shares@.len(),
        forall|k: int| 0 <= k < r@.len() ==> (#[trigger] r@[k])@ == hex_lower(shares@[k]@),
{
    let mut out: Vec<String> = Vec::new();
    let n = shares.len();
    let mut i: usize = 0;
    while i < n
        invariant
            n == shares@.len(),
            i <= n,
            out@.len() == i,
            forall|k: int| 0 <= k < i ==> (#[trigger] out@[k])@ == hex_lower(shares@[k]@),
        decreases n - i,
    {
        out.push(hex_encode(shares[i].as_slice()));
        i = i + 1;
    }
    out
}

/// Distinct shares of one split rebuild the secret: they parse, share one length, and have
/// as many distinct x coordinates as there are shares.
proof fn lemma_selection_recovers(sel: Seq<Seq<u8>>, dealt: Seq<Seq<u8>>, secret_len: int, threshold: u8)
    requires
        secret_len >= 1,
        sel.len() >= 1,
        sel.len() >= threshold,
        is_selection_of(sel, dealt),
        forall|i: int|
            0 <= i < dealt.len() ==> (#[trigger] dealt[i]).len() == secret_len + 1 && dealt[i][0] == i + 1,
    ensures
        recovered_secret(threshold, sel) == Some(shamir_interpolated(sel)),
{
    assert forall|k: int| 0 <= k < sel.len() implies (#[trigger] sel[k]).len() == secret_len + 1 by {
        assert(dealt.contains(sel[k]));
        let i = choose|i: int| 0 <= i < dealt.len() && dealt[i] == sel[k];
    }
    assert(shares_parse(sel));
    assert(shares_same_length(sel));
    let keys = sel.map_values(|s: Seq<u8>| s[0]);
    assert(keys.no_duplicates()) by {
        assert forall|a: int, b: int| 0 <= a < keys.len() && 0 <= b < keys.len() && a != b implies keys[a] != keys[b] by {
            assert(dealt.contains(sel[a]));
            assert(dealt.contains(sel[b]));
            let i = choose|i: int| 0 <= i < dealt.len() && dealt[i] == sel[a];
            let j = choose|j: int| 0 <= j < dealt.len() && dealt[j] == sel[b];
            assert(sel[a] != sel[b]);
            assert(i != j);
            assert(keys[a] == dealt[i][0]);
            assert(keys[b] == dealt[j][0]);
        }
    }
    keys.unique_seq_to_set();
    assert(share_keys(sel).len() == sel.len());
}

/// What `hex::decode` gives for a hex digit: its value, either case.
pub open spec fn hex_value(c: char) -> Option<int> {
    if '0' <= c && c <= '9' {
        Some(c as int - 48)
    } else if 'a' <= c && c <= 'f' {
        Some(c as int - 87)
    } else if 'A' <= c && c <= 'F' {
        Some(c as int - 55)
    } else {
        None
    }
}

/// The bytes a hex text stands for: two digits per byte, high first; `None` for an odd
/// length or a character that is not a hex digit.
pub open spec fn hex_decoded(s: Seq<char>) -> Option<Seq<u8>> {
    if s.len() % 2 == 0 && forall|i: int| 0 <= i < s.len() ==> #[trigger] hex_value(s[i]) is Some {
        Some(
            Seq::new(
                (s.len() / 2) as nat,
                |i: int| (hex_value(s[2 * i])->0 * 16 + hex_value(s[2 * i + 1])->0) as u8,
            ),
        )
    } else {
        None
    }
}

/// An ASCII hexadecimal digit, as a byte.
pub open spec fn hex_byte(b: u8) -> bool {
    (48 <= b <= 57) || (65 <= b <= 70) || (97 <= b <= 102)
}

/// A byte that `{:?}` writes unescaped between single quotes: printable ASCII other than a
/// single quote or a backslash.
pub open spec fn plain_byte(b: u8) -> bool {
    32 <= b <= 126 && b != 39 && b != 92
}

/// `i` is the position of the first byte of `b` that is not a hex digit.
pub open spec fn first_non_hex(b: Seq<u8>, i: int) -> bool {
    &&& 0 <= i < b.len()
    &&& !hex_byte(b[i])
    &&& forall|j: int| 0 <= j < i ==> hex_byte(#[trigger] b[j])
}

/// What `hex::decode`'s error says of a text it refuses, as far as it is stated: "Odd number
/// of digits" for an odd count of bytes; otherwise the first byte that is not a hex digit
/// and its position, when that byte is written plainly (other bytes are written escaped,
/// which is not described).
pub open spec fn hex_refusal_fits(s: Seq<char>, m: Seq<char>) -> bool {
    let b = vstd::utf8::encode_utf8(s);
    &&& b.len() % 2 == 1 ==> m == "Odd number of digits"@
    &&& forall|i: int|
        b.len() % 2 == 0 && #[trigger] first_non_hex(b, i) && plain_byte(b[i]) ==> m == "Invalid character '"@
            + seq![b[i] as char] + "' at position "@ + decimal(i)
}

/// Wraps `hex::decode`. It decodes exactly the texts `hex_decoded` accepts, to the bytes it
/// states; a refusal's message is as `hex_refusal_fits` says.
#[verifier::external_body]
pub(crate) fn hex_decode(s: &str) -> (r: Result<Vec<u8>, String>)
    ensures
        match r {
            Ok(v) => hex_decoded(s@) == Some(v@),
            Err(m) => hex_decoded(s@) is None && hex_refusal_fits(s@, m@),
        },
{
    hex::decode(s).map_err(|e| e.to_string())
}

/// Reads shares written in hex, surrounding whitespace ignored. Fails with the decoder's
/// message for the first text that is not hex.
pub fn shares_from_hex(texts: &[String]) -> (r: Result<Vec<Vec<u8>>, String>)
    ensures
        match r {
            Ok(shares) => shares@.len() == texts@.len() && forall|k: int|
                0 <= k < texts@.len() ==> hex_decoded(trimmed_of((#[trigger] texts@[k])@)) == Some(shares@[k]@),
            Err(m) => exists|k: int|
                0 <= k < texts@.len() && hex_decoded(trimmed_of((#[trigger] texts@[k])@)) is None
                    && hex_refusal_fits(trimmed_of(texts@[k]@), m@) && forall|j: int|
                    0 <= j < k ==> hex_decoded(trimmed_of((#[trigger] texts@[j])@)) is Some,
        },
{
    let mut shares: Vec<Vec<u8>> = Vec::new();
    let n = texts.len();
    let mut i: usize = 0;
    while i < n
        invariant
            n == texts@.len(),
            i <= n,
            shares@.len() == i,
            forall|k: int| 0 <= k < i ==> hex_decoded(trimmed_of((#[trigger] texts@[k])@)) == Some(shares@[k]@),
        decreases n - i,
    {
        match hex_decode(trim(texts[i].as_str())) {
            Ok(bytes) => shares.push(bytes),
            Err(m) => {
                assert(hex_decoded(trimmed_of(texts@[i as int]@)) is None);
                return Err(m);
            },
        }
        i = i + 1;
    }
    Ok(shares)
}

} // verus!
