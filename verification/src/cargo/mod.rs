//! The encrypted cargo: AES-256-GCM with a key derived by Argon2, and the framing of the
//! entries packed into one archive.
//!
//! The sealed form is a 12-byte nonce followed by the AES-GCM ciphertext. An archive is a
//! run of entries, each a 4-byte little-endian length followed by that many bytes. Reading
//! files and encoding each entry happens outside the library.

use vstd::prelude::*;
use vstd::bytes::{
    lemma_auto_spec_u32_to_from_le_bytes, spec_u32_from_le_bytes, spec_u32_to_le_bytes,
    u32_from_le_bytes, u32_to_le_bytes,
};
use vstd::slice::{slice_subrange, slice_to_vec};
use aes_gcm::aead::{Aead, KeyInit};
use rand::RngCore;
use crate::error::Error;
use crate::text::bytes_eq;

verus! {

/// Bytes of salt for a new key.
pub const SALT_LEN: usize = 32;

/// Bytes of nonce before each ciphertext.
pub const NONCE_LEN: usize = 12;

/// Bytes of key.
pub const KEY_LEN: usize = 32;

/// The largest plaintext AES-GCM encrypts, in bytes (2^36).
pub const PLAINTEXT_MAX: u64 = 68719476736;

/// The largest password and salt Argon2 accepts, in bytes.
pub const ARGON2_INPUT_MAX: u64 = 0xFFFFFFFF;

/// The smallest salt Argon2 accepts, in bytes.
pub const ARGON2_SALT_MIN: u64 = 8;

/// The key Argon2 (default parameters: Argon2id, v0x13) derives from a password and salt.
pub uninterp spec fn argon2_key(password: Seq<u8>, salt: Seq<u8>) -> Seq<u8>;

/// The AES-256-GCM ciphertext (with its 16-byte tag) of a plaintext under a key and nonce.
pub uninterp spec fn aes_gcm_sealed(key: Seq<u8>, nonce: Seq<u8>, plaintext: Seq<u8>) -> Seq<u8>;

/// What AES-256-GCM decryption gives for a ciphertext under a key and nonce: the plaintext,
/// or `None` when the tag does not authenticate it.
pub uninterp spec fn aes_gcm_opened(key: Seq<u8>, nonce: Seq<u8>, ciphertext: Seq<u8>) -> Option<Seq<u8>>;

/// Whether Argon2 accepts a password and salt of these lengths.
pub open spec fn argon2_accepts(password_len: int, salt_len: int) -> bool {
    &&& password_len <= ARGON2_INPUT_MAX
    &&& ARGON2_SALT_MIN <= salt_len <= ARGON2_INPUT_MAX
}

/// The message of Argon2's error for inputs it refuses.
pub open spec fn argon2_refusal(password_len: int, salt_len: int) -> Seq<char> {
    if password_len > ARGON2_INPUT_MAX {
        "password is too long"@
    } else if salt_len < ARGON2_SALT_MIN {
        "salt is too short"@
    } else {
        "salt is too long"@
    }
}

/// Wraps `argon2::Argon2::default().hash_password_into` with a 32-byte output. It succeeds
/// exactly when the password and salt lengths are accepted, with the key named by
/// `argon2_key`; otherwise its error message names the refused input.
#[verifier::external_body]
pub(crate) fn argon2_hash(password: &[u8], salt: &[u8]) -> (r: Result<Vec<u8>, String>)
    ensures
        match r {
            Ok(key) => argon2_accepts(password@.len() as int, salt@.len() as int) && key@
                == argon2_key(password@, salt@) && key@.len() == KEY_LEN,
            Err(msg) => !argon2_accepts(password@.len() as int, salt@.len() as int) && msg@
                == argon2_refusal(password@.len() as int, salt@.len() as int),
        },
{
    let mut key = vec![0u8; KEY_LEN];
    argon2::Argon2::default().hash_password_into(password, salt, &mut key).map_err(|e| e.to_string())?;
    Ok(key)
}

/// Wraps `rand::thread_rng().fill_bytes`: `n` random bytes. Nothing is promised of their
/// values.
#[verifier::external_body]
pub(crate) fn random_bytes(n: usize) -> (r: Vec<u8>)
    ensures
        r@.len() == n,
{
    let mut bytes = vec![0u8; n];
    rand::thread_rng().fill_bytes(&mut bytes);
    bytes
}

/// Wraps `Aes256Gcm::encrypt` (no associated data). It fails exactly when the plaintext is
/// longer than 2^36 bytes, with aead's message "aead::Error"; otherwise the ciphertext is
/// the one named by `aes_gcm_sealed`, 16 bytes longer than the plaintext, and decrypting it
/// with the same key and nonce gives the plaintext back.
#[verifier::external_body]
pub(crate) fn aes_gcm_encrypt(key: &[u8], nonce: &[u8], plaintext: &[u8]) -> (r: Result<Vec<u8>, String>)
    requires
        key@.len() == KEY_LEN,
        nonce@.len() == NONCE_LEN,
    ensures
        match r {
            Ok(c) => {
                &&& plaintext@.len() <= PLAINTEXT_MAX
                &&& c@ == aes_gcm_sealed(key@, nonce@, plaintext@)
                &&& c@.len() == plaintext@.len() + 16
                &&& aes_gcm_opened(key@, nonce@, c@) == Some(plaintext@)
            },
            Err(msg) => plaintext@.len() > PLAINTEXT_MAX && msg@ == "aead::Error"@,
        },
{
    let cipher = aes_gcm::Aes256Gcm::new_from_slice(key).map_err(|e| e.to_string())?;
    cipher.encrypt(aes_gcm::Nonce::from_slice(nonce), plaintext).map_err(|e| e.to_string())
}

/// Wraps `Aes256Gcm::decrypt` (no associated data). It gives the plaintext named by
/// `aes_gcm_opened`, or fails with "aead::Error" where that is `None`, which it is for
/// ciphertexts shorter than the 16-byte tag.
#[verifier::external_body]
pub(crate) fn aes_gcm_decrypt(key: &[u8], nonce: &[u8], ciphertext: &[u8]) -> (r: Result<Vec<u8>, String>)
    requires
        key@.len() == KEY_LEN,
        nonce@.len() == NONCE_LEN,
    ensures
        ciphertext@.len() < 16 ==> r is Err,
        match r {
            Ok(p) => aes_gcm_opened(key@, nonce@, ciphertext@) == Some(p@),
            Err(msg) => aes_gcm_opened(key@, nonce@, ciphertext@) is None && msg@ == "aead::Error"@,
        },
{
    let cipher = aes_gcm::Aes256Gcm::new_from_slice(key).map_err(|e| e.to_string())?;
    cipher.decrypt(aes_gcm::Nonce::from_slice(nonce), ciphertext).map_err(|e| e.to_string())
}

/// The message for sealed data too short to hold a nonce.
pub open spec fn too_short_message() -> Seq<char> {
    "Data too short - this ain't valid cargo!"@
}

/// What unsealing gives: a too-short error below the nonce length; otherwise the
/// decryption of the rest under the leading nonce, or aead's error.
pub open spec fn unsealed(key: Seq<u8>, sealed: Seq<u8>) -> Result<Seq<u8>, Seq<char>> {
    if sealed.len() < NONCE_LEN {
        Err(too_short_message())
    } else {
        match aes_gcm_opened(key, sealed.subrange(0, NONCE_LEN as int), sealed.subrange(NONCE_LEN as int, sealed.len() as int)) {
            Some(p) => Ok(p),
            None => Err("aead::Error"@),
        }
    }
}

/// The header written before an entry: its length as a little-endian `u32` (the length
/// taken modulo 2^32, as `as u32` does).
pub open spec fn length_header(len: nat) -> Seq<u8> {
    spec_u32_to_le_bytes(len as u32)
}

/// The archive of a run of entries: each entry's header, then its bytes.
pub open spec fn framed(entries: Seq<Seq<u8>>) -> Seq<u8>
    decreases entries.len(),
{
    if entries.len() == 0 {
        Seq::empty()
    } else {
        framed(entries.drop_last()) + length_header(entries.last().len()) + entries.last()
    }
}

/// The entries read back from an archive: while a 4-byte header is left, read that many
/// bytes as the next entry; stop at a header that claims more bytes than are left.
pub open spec fn unframed(archive: Seq<u8>) -> Seq<Seq<u8>>
    decreases archive.len(),
{
    if archive.len() < 4 {
        Seq::empty()
    } else {
        let n = spec_u32_from_le_bytes(archive.subrange(0, 4)) as int;
        if n > archive.len() - 4 {
            Seq::empty()
        } else {
            seq![archive.subrange(4, 4 + n)] + unframed(archive.subrange(4 + n, archive.len() as int))
        }
    }
}

/// The byte strings held by a run of vectors.
pub open spec fn byte_views(v: Seq<Vec<u8>>) -> Seq<Seq<u8>> {
    v.map_values(|e: Vec<u8>| e@)
}

/// Every entry is shorter than 2^32 bytes, so its length fits its header.
pub open spec fn headers_fit(entries: Seq<Seq<u8>>) -> bool {
    forall|i: int| 0 <= i < entries.len() ==> #[trigger] entries[i].len() <= u32::MAX
}

/// Writes the archive of a run of entries.
pub fn frame_entries(entries: &[Vec<u8>]) -> (archive: Vec<u8>)
    ensures
        archive@ == framed(byte_views(entries@)),
{
    let mut archive: Vec<u8> = Vec::new();
    let n = entries.len();
    let mut i: usize = 0;
    while i < n
        invariant
            n == entries@.len(),
            i <= n,
            archive@ == framed(byte_views(entries@.subrange(0, i as int))),
        decreases n - i,
    {
        let entry = &entries[i];
        let header = u32_to_le_bytes(entry.len() as u32);
        proof {
            let before = byte_views(entries@.subrange(0, i as int));
            let after = byte_views(entries@.subrange(0, i + 1));
            assert(after.drop_last() =~= before);
            assert(after.last() == entry@);
        }
        archive.extend_from_slice(header.as_slice());
        archive.extend_from_slice(entry.as_slice());
        i = i + 1;
    }
    assert(entries@.subrange(0, n as int) =~= entries@);
    archive
}

/// Reads the entries back from an archive.
pub fn unframe_entries(archive: &[u8]) -> (entries: Vec<Vec<u8>>)
    ensures
        byte_views(entries@) == unframed(archive@),
{
    let mut entries: Vec<Vec<u8>> = Vec::new();
    let total = archive.len();
    let mut cursor: usize = 0;
    let mut done = false;
    assert(archive@.subrange(0, total as int) =~= archive@);
    assert(byte_views(entries@) =~= Seq::<Seq<u8>>::empty());
    assert(byte_views(entries@) + unframed(archive@) =~= unframed(archive@));
    while !done && total - cursor >= 4
        invariant
            total == archive@.len(),
            cursor <= total,
            done ==> unframed(archive@.subrange(cursor as int, total as int)) == Seq::<Seq<u8>>::empty(),
            byte_views(entries@) + unframed(archive@.subrange(cursor as int, total as int))
                == unframed(archive@),
        decreases (total - cursor) as int + (if done { 0int } else { 1int }),
    {
        let ghost rest = archive@.subrange(cursor as int, total as int);
        let len = u32_from_le_bytes(slice_subrange(archive, cursor, cursor + 4)) as usize;
        assert(rest.subrange(0, 4) =~= archive@.subrange(cursor as int, cursor + 4));
        if len > total - cursor - 4 {
            assert(unframed(rest) =~= Seq::<Seq<u8>>::empty());
            done = true;
        } else {
            let start = cursor + 4;
            let end = start + len;
            let piece = slice_to_vec(slice_subrange(archive, start, end));
            proof {
                assert(rest.subrange(4, 4 + len) =~= archive@.subrange(start as int, end as int));
                assert(rest.subrange(4 + len, rest.len() as int) =~= archive@.subrange(end as int, total as int));
                let old_views = byte_views(entries@);
                let new_views = byte_views(entries@.push(piece));
                assert(new_views =~= old_views.push(piece@));
                assert(old_views + unframed(rest) =~= new_views + unframed(archive@.subrange(end as int, total as int)));
            }
            entries.push(piece);
            cursor = end;
        }
    }
    proof {
        let rest = archive@.subrange(cursor as int, total as int);
        assert(unframed(rest) =~= Seq::<Seq<u8>>::empty());
        assert(byte_views(entries@) + unframed(rest) =~= byte_views(entries@));
    }
    entries
}

/// The archive of entries, read from the front: the first entry's header and bytes, then
/// the archive of the others.
pub proof fn lemma_framed_front(entries: Seq<Seq<u8>>)
    requires
        entries.len() > 0,
    ensures
        framed(entries) == length_header(entries[0].len()) + entries[0] + framed(entries.drop_first()),
    decreases entries.len(),
{
    if entries.len() == 1 {
        assert(entries.drop_last() =~= Seq::<Seq<u8>>::empty());
        assert(entries.drop_first() =~= Seq::<Seq<u8>>::empty());
        assert(framed(entries.drop_last()) =~= Seq::<u8>::empty());
        assert(framed(entries.drop_first()) =~= Seq::<u8>::empty());
        assert(entries.last() == entries[0]);
        assert(framed(entries) =~= length_header(entries[0].len()) + entries[0] + framed(entries.drop_first()));
    } else {
        lemma_framed_front(entries.drop_last());
        assert(entries.drop_last().drop_first() =~= entries.drop_first().drop_last());
        assert(entries.drop_first().last() == entries.last());
        assert(framed(entries) =~= length_header(entries[0].len()) + entries[0] + framed(entries.drop_first()));
    }
}

/// Reading the archive of entries gives back the entries, when every entry's length fits
/// its 4-byte header.
pub proof fn lemma_unframed_framed(entries: Seq<Seq<u8>>)
    requires
        headers_fit(entries),
    ensures
        unframed(framed(entries)) == entries,
    decreases entries.len(),
{
    if entries.len() == 0 {
        assert(framed(entries) =~= Seq::<u8>::empty());
        assert(unframed(framed(entries)) =~= entries);
    } else {
        lemma_framed_front(entries);
        lemma_auto_spec_u32_to_from_le_bytes();
        let e = entries[0];
        let h = length_header(e.len());
        let rest = framed(entries.drop_first());
        let a = framed(entries);
        assert(a == h + e + rest);
        assert(h.len() == 4);
        assert(a.subrange(0, 4) =~= h);
        assert(e.len() <= u32::MAX);
        assert((e.len() as u32) as int == e.len());
        assert(spec_u32_from_le_bytes(a.subrange(0, 4)) as int == e.len());
        assert(a.subrange(4, 4 + e.len() as int) =~= e);
        assert(a.subrange(4 + e.len() as int, a.len() as int) =~= rest);
        assert(headers_fit(entries.drop_first())) by {
            assert forall|i: int| 0 <= i < entries.drop_first().len() implies #[trigger] entries.drop_first()[i].len() <= u32::MAX by {
                assert(entries.drop_first()[i] == entries[i + 1]);
            }
        }
        lemma_unframed_framed(entries.drop_first());
        assert(unframed(a) =~= seq![e] + entries.drop_first());
        assert(seq![e] + entries.drop_first() =~= entries);
    }
}

/// The encryption key, derived from a password with Argon2, and the salt it was derived
/// with (packed cargo starts with it, so the password alone opens it again).
pub struct Cargo {
    key: Vec<u8>,
    salt: Vec<u8>,
}

/// What key derivation gives for a password and salt: Argon2's key, or its refusal.
pub open spec fn derived_key(password: Seq<char>, salt: Seq<u8>) -> Result<Seq<u8>, Seq<char>> {
    let pw = vstd::utf8::encode_utf8(password);
    if argon2_accepts(pw.len() as int, salt.len() as int) {
        Ok(argon2_key(pw, salt))
    } else {
        Err(argon2_refusal(pw.len() as int, salt.len() as int))
    }
}

/// The message for packed cargo that starts with another salt than the vault's.
pub open spec fn other_salt_message() -> Seq<char> {
    "This cargo was packed with another salt"@
}

/// The message for an entry whose length does not fit its header.
pub open spec fn entry_too_large_message() -> Seq<char> {
    "Cargo entry too large: 4 GiB or more"@
}

/// What packing gives: the salt, then an archive of the entries sealed under the key; every
/// entry shorter than 4 GiB.
pub open spec fn packs_to(key: Seq<u8>, salt: Seq<u8>, entries: Seq<Seq<u8>>, packed: Seq<u8>) -> bool {
    &&& headers_fit(entries)
    &&& packed.len() >= salt.len()
    &&& packed.subrange(0, salt.len() as int) == salt
    &&& unsealed(key, packed.subrange(salt.len() as int, packed.len() as int)) == Ok::<Seq<u8>, Seq<char>>(
        framed(entries),
    )
}

/// What unpacking packed cargo gives: it must start with the vault's salt; the rest is
/// unsealed and its entries read back.
pub open spec fn unpacked(key: Seq<u8>, salt: Seq<u8>, packed: Seq<u8>) -> Result<Seq<Seq<u8>>, Seq<char>> {
    if packed.len() < salt.len() {
        Err(too_short_message())
    } else if packed.subrange(0, salt.len() as int) != salt {
        Err(other_salt_message())
    } else {
        match unsealed(key, packed.subrange(salt.len() as int, packed.len() as int)) {
            Ok(archive) => Ok(unframed(archive)),
            Err(m) => Err(m),
        }
    }
}

/// The salt packed cargo starts with.
pub fn packed_salt(packed: &[u8]) -> (r: Option<&[u8]>)
    ensures
        match r {
            Some(s) => packed@.len() >= SALT_LEN && s@ == packed@.subrange(0, SALT_LEN as int),
            None => packed@.len() < SALT_LEN,
        },
{
    if packed.len() < SALT_LEN {
        None
    } else {
        Some(slice_subrange(packed, 0, SALT_LEN))
    }
}

impl Cargo {
    /// The key.
    pub closed spec fn key(&self) -> Seq<u8> {
        self.key@
    }

    /// The salt the key was derived with.
    pub closed spec fn salt(&self) -> Seq<u8> {
        self.salt@
    }

    /// The key is always 32 bytes.
    #[verifier::type_invariant]
    spec fn key_is_full(&self) -> bool {
        self.key@.len() == KEY_LEN
    }

    /// A new vault: a fresh random 32-byte salt, and the key Argon2 derives from the password
    /// and that salt. The salt is not kept. Fails only when Argon2 refuses the password.
    pub fn new(password: &str) -> (r: Result<Cargo, Error>)
        ensures
            match r {
                Ok(c) => c.salt().len() == SALT_LEN && derived_key(password@, c.salt()) == Ok::<Seq<u8>, Seq<char>>(
                    c.key(),
                ),
                Err(e) => vstd::utf8::encode_utf8(password@).len() > ARGON2_INPUT_MAX && e is Crypto
                    && e->Crypto_0@ == "password is too long"@,
            },
    {
        let salt = random_bytes(SALT_LEN);
        Self::open(password, salt.as_slice())
    }

    /// Opens a vault with a password and the salt it was made with.
    pub fn open(password: &str, salt: &[u8]) -> (r: Result<Cargo, Error>)
        ensures
            match r {
                Ok(c) => c.salt() == salt@ && derived_key(password@, salt@) == Ok::<Seq<u8>, Seq<char>>(c.key()),
                Err(e) => derived_key(password@, salt@) matches Err(m) && e is Crypto && e->Crypto_0@ == m,
            },
    {
        let key = Self::derive_key(password, salt)?;
        Ok(Cargo { key, salt: slice_to_vec(salt) })
    }

    /// Derives the key from a password and salt with Argon2.
    fn derive_key(password: &str, salt: &[u8]) -> (r: Result<Vec<u8>, Error>)
        ensures
            match r {
                Ok(k) => derived_key(password@, salt@) == Ok::<Seq<u8>, Seq<char>>(k@) && k@.len() == KEY_LEN,
                Err(e) => derived_key(password@, salt@) matches Err(m) && e is Crypto && e->Crypto_0@ == m,
            },
    {
        match argon2_hash(password.as_bytes(), salt) {
            Ok(k) => Ok(k),
            Err(m) => Err(Error::Crypto(m)),
        }
    }

    /// Seals data: a fresh random nonce, then the AES-256-GCM ciphertext under it. Fails
    /// only for plaintexts longer than 2^36 bytes. Unsealing the result gives the data back.
    pub fn seal(&self, plaintext: &[u8]) -> (r: Result<Vec<u8>, Error>)
        ensures
            match r {
                Ok(s) => {
                    &&& s@.len() == NONCE_LEN + plaintext@.len() + 16
                    &&& s@.subrange(NONCE_LEN as int, s@.len() as int) == aes_gcm_sealed(
                        self.key(),
                        s@.subrange(0, NONCE_LEN as int),
                        plaintext@,
                    )
                    &&& unsealed(self.key(), s@) == Ok::<Seq<u8>, Seq<char>>(plaintext@)
                },
                Err(e) => plaintext@.len() > PLAINTEXT_MAX && e is Crypto && e->Crypto_0@ == "aead::Error"@,
            },
    {
        proof {
            use_type_invariant(self);
        }
        let nonce = random_bytes(NONCE_LEN);
        let ciphertext = match aes_gcm_encrypt(self.key.as_slice(), nonce.as_slice(), plaintext) {
            Ok(c) => c,
            Err(m) => return Err(Error::Crypto(m)),
        };
        let mut sealed: Vec<u8> = Vec::new();
        sealed.extend_from_slice(nonce.as_slice());
        sealed.extend_from_slice(ciphertext.as_slice());
        assert(sealed@.subrange(0, NONCE_LEN as int) =~= nonce@);
        assert(sealed@.subrange(NONCE_LEN as int, sealed@.len() as int) =~= ciphertext@);
        Ok(sealed)
    }

    /// Unseals data made by `seal`: the nonce is the first 12 bytes, the ciphertext the rest.
    /// Fails when the data is too short, or when the key or data is wrong.
    pub fn unseal(&self, sealed: &[u8]) -> (r: Result<Vec<u8>, Error>)
        ensures
            match r {
                Ok(p) => unsealed(self.key(), sealed@) == Ok::<Seq<u8>, Seq<char>>(p@),
                Err(e) => unsealed(self.key(), sealed@) matches Err(m) && e is Crypto && e->Crypto_0@ == m,
            },
    {
        proof {
            use_type_invariant(self);
        }
        if sealed.len() < NONCE_LEN {
            return Err(Error::Crypto(String::from_str("Data too short - this ain't valid cargo!")));
        }
        let nonce = slice_subrange(sealed, 0, NONCE_LEN);
        let ciphertext = slice_subrange(sealed, NONCE_LEN, sealed.len());
        match aes_gcm_decrypt(self.key.as_slice(), nonce, ciphertext) {
            Ok(p) => Ok(p),
            Err(m) => Err(Error::Crypto(m)),
        }
    }

    /// Packs encoded entries: the vault's salt, then the sealed archive of the entries.
    /// Refuses entries of 4 GiB or more, whose length would not fit its 4-byte header.
    pub fn pack_files(&self, entries: &[Vec<u8>]) -> (r: Result<Vec<u8>, Error>)
        ensures
            match r {
                Ok(p) => packs_to(self.key(), self.salt(), byte_views(entries@), p@),
                Err(e) => e is Crypto && if headers_fit(byte_views(entries@)) {
                    framed(byte_views(entries@)).len() > PLAINTEXT_MAX
                } else {
                    e->Crypto_0@ == entry_too_large_message()
                },
            },
    {
        let n = entries.len();
        let mut i: usize = 0;
        while i < n
            invariant
                n == entries@.len(),
                i <= n,
                forall|k: int| 0 <= k < i ==> (#[trigger] byte_views(entries@)[k]).len() <= u32::MAX,
            decreases n - i,
        {
            if entries[i].len() as u64 > 0xFFFF_FFFFu64 {
                assert(byte_views(entries@)[i as int].len() > u32::MAX);
                return Err(Error::Crypto(String::from_str("Cargo entry too large: 4 GiB or more")));
            }
            i = i + 1;
        }
        let archive = frame_entries(entries);
        let sealed = self.seal(archive.as_slice())?;
        let mut packed = slice_to_vec(self.salt.as_slice());
        packed.extend_from_slice(sealed.as_slice());
        assert(packed@.subrange(0, self.salt().len() as int) =~= self.salt());
        assert(packed@.subrange(self.salt().len() as int, packed@.len() as int) =~= sealed@);
        Ok(packed)
    }

    /// Unpacks cargo packed under this vault's salt: unseals the rest and reads its entries
    /// back.
    pub fn unpack(&self, packed: &[u8]) -> (r: Result<Vec<Vec<u8>>, Error>)
        ensures
            match r {
                Ok(es) => unpacked(self.key(), self.salt(), packed@) == Ok::<Seq<Seq<u8>>, Seq<char>>(byte_views(es@)),
                Err(e) => unpacked(self.key(), self.salt(), packed@) matches Err(m) && e is Crypto && e->Crypto_0@ == m,
            },
    {
        let n = self.salt.len();
        if packed.len() < n {
            return Err(Error::Crypto(String::from_str("Data too short - this ain't valid cargo!")));
        }
        if !bytes_eq(slice_subrange(packed, 0, n), self.salt.as_slice()) {
            return Err(Error::Crypto(String::from_str("This cargo was packed with another salt")));
        }
        let archive = self.unseal(slice_subrange(packed, n, packed.len()))?;
        Ok(unframe_entries(archive.as_slice()))
    }
}

/// Unpacking what was packed gives the entries back.
pub proof fn lemma_unpack_undoes_pack(key: Seq<u8>, salt: Seq<u8>, entries: Seq<Seq<u8>>, packed: Seq<u8>)
    requires
        packs_to(key, salt, entries, packed),
    ensures
        unpacked(key, salt, packed) == Ok::<Seq<Seq<u8>>, Seq<char>>(entries),
{
    lemma_unframed_framed(entries);
}

/// The password alone reopens packed cargo: a vault opened with the same password and the
/// salt the cargo starts with unpacks the entries that were packed.
pub proof fn lemma_password_reopens_cargo(
    password: Seq<char>,
    salt: Seq<u8>,
    key: Seq<u8>,
    entries: Seq<Seq<u8>>,
    packed: Seq<u8>,
    reopened_key: Seq<u8>,
)
    requires
        salt.len() == SALT_LEN,
        derived_key(password, salt) == Ok::<Seq<u8>, Seq<char>>(key),
        packs_to(key, salt, entries, packed),
        derived_key(password, packed.subrange(0, SALT_LEN as int)) == Ok::<Seq<u8>, Seq<char>>(reopened_key),
    ensures
        unpacked(reopened_key, packed.subrange(0, SALT_LEN as int), packed) == Ok::<Seq<Seq<u8>>, Seq<char>>(entries),
{
    lemma_unpack_undoes_pack(key, salt, entries, packed);
}

} // verus!
