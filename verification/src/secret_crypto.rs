//! Sealing the secrets map for the encrypted file: JSON, a key derived from
//! the passphrase with PBKDF2-HMAC-SHA256, AES-256-GCM, and Base64 for the
//! three stored fields.
use vstd::prelude::*;
use aes_gcm::aead::{Aead, KeyInit};
use base64::Engine;
use rand::RngCore;
use crate::secret_map::{entries_view, keys_distinct, same_entries};

verus! {

/// Rounds of PBKDF2 for the file key.
pub const PBKDF2_ITERS: u32 = 100_000;

/// Bytes of salt for the file key.
pub const SALT_LEN: usize = 16;

/// Bytes of AES-GCM nonce.
pub const NONCE_LEN: usize = 12;

/// The encrypted secrets file: salt, nonce and ciphertext in Base64.
pub struct EncryptedBlob {
    pub salt_b64: String,
    pub nonce_b64: String,
    pub ciphertext_b64: String,
}

/// The file as the specification sees it.
pub struct BlobView {
    pub salt: Seq<char>,
    pub nonce: Seq<char>,
    pub ciphertext: Seq<char>,
}

impl View for EncryptedBlob {
    type V = BlobView;

    open spec fn view(&self) -> BlobView {
        BlobView { salt: self.salt_b64@, nonce: self.nonce_b64@, ciphertext: self.ciphertext_b64@ }
    }
}

/// The standard Base64 text of `bytes`.
pub uninterp spec fn base64_encoded(bytes: Seq<u8>) -> Seq<char>;

/// The bytes a standard Base64 text stands for, or the text of the decode
/// error.
pub uninterp spec fn base64_decoded(text: Seq<char>) -> Result<Seq<u8>, Seq<char>>;

/// PBKDF2-HMAC-SHA256 of `password` and `salt` with `rounds` rounds, 32
/// bytes long.
pub uninterp spec fn pbkdf2_sha256(password: Seq<u8>, salt: Seq<u8>, rounds: u32) -> Seq<u8>;

/// AES-256-GCM encryption of `plaintext` (ciphertext followed by the tag),
/// or the text of the error.
pub uninterp spec fn aes256gcm_seal(key: Seq<u8>, nonce: Seq<u8>, plaintext: Seq<u8>) -> Result<Seq<u8>, Seq<char>>;

/// AES-256-GCM decryption and authentication of `ciphertext`, or the text
/// of the error.
pub uninterp spec fn aes256gcm_open(key: Seq<u8>, nonce: Seq<u8>, ciphertext: Seq<u8>) -> Result<Seq<u8>, Seq<char>>;

/// The JSON object that `serde_json` writes for a map of strings to
/// strings (the keys in sorted order).
pub uninterp spec fn json_of_entries(entries: Seq<(Seq<char>, Seq<char>)>) -> Seq<u8>;

/// The map of strings to strings that `serde_json` reads from `bytes` (its
/// entries in key order), or the text of the parse error.
pub uninterp spec fn entries_of_json(bytes: Seq<u8>) -> Result<Seq<(Seq<char>, Seq<char>)>, Seq<char>>;

/// `base64::engine::general_purpose::STANDARD.encode(bytes)`. The text is
/// only named; that the same engine decodes it back to `bytes` is stated.
#[verifier::external_body]
fn encode_base64(bytes: &[u8]) -> (r: String)
    ensures
        r@ == base64_encoded(bytes@),
        (base64_decoded(r@) == Ok::<Seq<u8>, Seq<char>>(bytes@)),
{
    base64::engine::general_purpose::STANDARD.encode(bytes)
}

/// `base64::engine::general_purpose::STANDARD.decode(text)`, its error shown
/// with `to_string`. The result is only named.
#[verifier::external_body]
fn decode_base64(text: &str) -> (r: Result<Vec<u8>, String>)
    ensures
        match r {
            Ok(b) => base64_decoded(text@) == Ok::<Seq<u8>, Seq<char>>(b@),
            Err(e) => base64_decoded(text@) == Err::<Seq<u8>, Seq<char>>(e@),
        },
{
    base64::engine::general_purpose::STANDARD.decode(text).map_err(|e| e.to_string())
}

/// `pbkdf2::pbkdf2_hmac::<sha2::Sha256>` into a 32-byte buffer. The key is
/// only named; its length is stated.
#[verifier::external_body]
fn pbkdf2_key(password: &[u8], salt: &[u8], rounds: u32) -> (r: Vec<u8>)
    ensures
        r@ == pbkdf2_sha256(password@, salt@, rounds),
        r@.len() == 32,
{
    let mut key = [0u8; 32];
    pbkdf2::pbkdf2_hmac::<sha2::Sha256>(password, salt, rounds, &mut key);
    key.to_vec()
}

/// The longest plaintext AES-GCM encrypts: 2^36 bytes (`aes_gcm::P_MAX`).
pub open spec fn aes_gcm_max_plaintext() -> nat {
    0x10_0000_0000
}

/// A bound on the length of the JSON object of the entries: two braces,
/// and for each entry its two quoted strings, a colon and a comma, every
/// character taking at most six bytes (the `\u00XX` escape of a control
/// character; other characters take at most four).
pub open spec fn json_size_bound(entries: Seq<(Seq<char>, Seq<char>)>) -> nat
    decreases entries.len(),
{
    if entries.len() == 0 {
        2
    } else {
        json_size_bound(entries.drop_last()) + 6 + 6 * (entries.last().0.len() + entries.last().1.len())
    }
}

/// Whether the entries, written as JSON, are short enough to be encrypted.
pub open spec fn sealable(entries: Seq<(Seq<char>, Seq<char>)>) -> bool {
    json_of_entries(entries).len() <= aes_gcm_max_plaintext()
}

/// `Aead::encrypt` of `aes_gcm::Aes256Gcm` under `key` and `nonce`, its
/// error shown with `to_string`. The ciphertext is only named; that
/// decrypting it under the same key and nonce gives `plaintext` back, the
/// defining property of the AEAD, is stated, and so is that encryption
/// fails only for a plaintext longer than `P_MAX` (without associated data,
/// that is the one check before encrypting).
#[verifier::external_body]
fn seal_aes256gcm(key: &[u8], nonce: &[u8], plaintext: &[u8]) -> (r: Result<Vec<u8>, String>)
    requires
        key@.len() == 32,
        nonce@.len() == NONCE_LEN,
    ensures
        match r {
            Ok(c) => aes256gcm_seal(key@, nonce@, plaintext@) == Ok::<Seq<u8>, Seq<char>>(c@) && aes256gcm_open(
                key@,
                nonce@,
                c@,
            ) == Ok::<Seq<u8>, Seq<char>>(plaintext@),
            Err(e) => aes256gcm_seal(key@, nonce@, plaintext@) == Err::<Seq<u8>, Seq<char>>(e@),
        },
        plaintext@.len() <= aes_gcm_max_plaintext() ==> r is Ok,
{
    let cipher = aes_gcm::Aes256Gcm::new(aes_gcm::Key::<aes_gcm::Aes256Gcm>::from_slice(key));
    cipher.encrypt(aes_gcm::Nonce::from_slice(nonce), plaintext).map_err(|e| e.to_string())
}

/// `Aead::decrypt` of `aes_gcm::Aes256Gcm` under `key` and `nonce`, its
/// error shown with `to_string`. The result is only named.
#[verifier::external_body]
fn open_aes256gcm(key: &[u8], nonce: &[u8], ciphertext: &[u8]) -> (r: Result<Vec<u8>, String>)
    requires
        key@.len() == 32,
        nonce@.len() == NONCE_LEN,
    ensures
        match r {
            Ok(p) => aes256gcm_open(key@, nonce@, ciphertext@) == Ok::<Seq<u8>, Seq<char>>(p@),
            Err(e) => aes256gcm_open(key@, nonce@, ciphertext@) == Err::<Seq<u8>, Seq<char>>(e@),
        },
{
    let cipher = aes_gcm::Aes256Gcm::new(aes_gcm::Key::<aes_gcm::Aes256Gcm>::from_slice(key));
    cipher.decrypt(aes_gcm::Nonce::from_slice(nonce), ciphertext).map_err(|e| e.to_string())
}

/// `serde_json::to_vec` of the entries as a `BTreeMap<&str, &str>`. The
/// bytes are only named; that `serde_json` reads them back as a map with
/// the same value under every key is stated, and so is a bound on their
/// length from the compact writer's escaping (see [`json_size_bound`]).
#[verifier::external_body]
fn entries_to_json(entries: &Vec<(String, String)>) -> (r: Vec<u8>)
    requires
        keys_distinct(entries_view(entries@)),
    ensures
        r@ == json_of_entries(entries_view(entries@)),
        match entries_of_json(r@) {
            Ok(m) => keys_distinct(m) && same_entries(m, entries_view(entries@)),
            Err(_) => false,
        },
        r@.len() <= json_size_bound(entries_view(entries@)),
{
    let map: std::collections::BTreeMap<&str, &str> = entries.iter().map(|(k, v)| (k.as_str(), v.as_str())).collect();
    serde_json::to_vec(&map).unwrap_or_default()
}

/// `serde_json::from_slice` into a `BTreeMap<String, String>`, listed in key
/// order, its error shown with `to_string`. The result is only named; the
/// keys of a map are distinct.
#[verifier::external_body]
fn entries_from_json(bytes: &[u8]) -> (r: Result<Vec<(String, String)>, String>)
    ensures
        match r {
            Ok(es) => entries_of_json(bytes@) == Ok::<Seq<(Seq<char>, Seq<char>)>, Seq<char>>(entries_view(es@))
                && keys_distinct(entries_view(es@)),
            Err(e) => entries_of_json(bytes@) == Err::<Seq<(Seq<char>, Seq<char>)>, Seq<char>>(e@),
        },
{
    serde_json::from_slice::<std::collections::BTreeMap<String, String>>(bytes)
        .map(|m| m.into_iter().collect())
        .map_err(|e| e.to_string())
}

/// `n` bytes from `rand::rngs::OsRng` (`fill_bytes`). They are random, so
/// only their number is stated. It panics if the operating system's random
/// source fails.
#[verifier::external_body]
fn random_bytes(n: usize) -> (r: Vec<u8>)
    ensures
        r@.len() == n,
{
    let mut buf = vec![0u8; n];
    rand::rngs::OsRng.fill_bytes(&mut buf);
    buf
}

/// The error when no passphrase is set.
pub open spec fn passphrase_missing() -> Seq<char> {
    "AUVRO_FALLBACK_PASSPHRASE is required for AES fallback."@
}

/// The file key derived from the passphrase.
pub open spec fn file_key(passphrase: Seq<char>, salt: Seq<u8>) -> Seq<u8> {
    pbkdf2_sha256(vstd::utf8::encode_utf8(passphrase), salt, PBKDF2_ITERS)
}

/// `encrypt_map` with the given salt and nonce: the entries as JSON,
/// sealed under the key derived from the passphrase, the three fields in
/// Base64.
pub open spec fn seal_spec(
    entries: Seq<(Seq<char>, Seq<char>)>,
    passphrase: Option<Seq<char>>,
    salt: Seq<u8>,
    nonce: Seq<u8>,
) -> Result<BlobView, Seq<char>> {
    match passphrase {
        None => Err(passphrase_missing()),
        Some(p) => match aes256gcm_seal(file_key(p, salt), nonce, json_of_entries(entries)) {
            Ok(c) => Ok(
                BlobView { salt: base64_encoded(salt), nonce: base64_encoded(nonce), ciphertext: base64_encoded(c) },
            ),
            Err(e) => Err(e),
        },
    }
}

/// `decrypt_map`: the three fields decoded, the nonce checked, the
/// ciphertext opened under the key derived from the passphrase, and the
/// JSON read.
pub open spec fn open_spec(b: BlobView, passphrase: Option<Seq<char>>) -> Result<Seq<(Seq<char>, Seq<char>)>, Seq<char>> {
    match base64_decoded(b.salt) {
        Err(e) => Err(e),
        Ok(salt) => match base64_decoded(b.nonce) {
            Err(e) => Err(e),
            Ok(nonce) => match base64_decoded(b.ciphertext) {
                Err(e) => Err(e),
                Ok(ct) => if nonce.len() != 12 {
                    Err("Invalid nonce length in encrypted secret file"@)
                } else {
                    match passphrase {
                        None => Err(passphrase_missing()),
                        Some(p) => match aes256gcm_open(file_key(p, salt), nonce, ct) {
                            Err(e) => Err(e),
                            Ok(pt) => entries_of_json(pt),
                        },
                    }
                },
            },
        },
    }
}

/// The file key for a passphrase, if one is set.
fn derive_key(passphrase: &Option<String>, salt: &[u8]) -> (r: Result<Vec<u8>, String>)
    ensures
        match r {
            Ok(k) => passphrase.is_some() && k@ == file_key(passphrase->0@, salt@) && k@.len() == 32,
            Err(e) => passphrase.is_none() && e@ == passphrase_missing(),
        },
{
    match passphrase {
        Some(p) => Ok(pbkdf2_key(p.as_str().as_bytes(), salt, PBKDF2_ITERS)),
        None => Err("AUVRO_FALLBACK_PASSPHRASE is required for AES fallback.".to_owned()),
    }
}

/// [`seal_spec`] with the given salt and nonce.
pub fn encrypt_map_with(
    entries: &Vec<(String, String)>,
    passphrase: &Option<String>,
    salt: &Vec<u8>,
    nonce: &Vec<u8>,
) -> (r: Result<EncryptedBlob, String>)
    requires
        keys_distinct(entries_view(entries@)),
        nonce@.len() == NONCE_LEN,
    ensures
        match r {
            Ok(b) => seal_spec(entries_view(entries@), crate::backend::opt_view(*passphrase), salt@, nonce@)
                == Ok::<BlobView, Seq<char>>(b@),
            Err(e) => seal_spec(entries_view(entries@), crate::backend::opt_view(*passphrase), salt@, nonce@)
                == Err::<BlobView, Seq<char>>(e@),
        },
        r matches Ok(b) ==> open_spec(b@, crate::backend::opt_view(*passphrase)) matches Ok(m) && keys_distinct(m)
            && same_entries(m, entries_view(entries@)),
        (passphrase is Some && sealable(entries_view(entries@))) ==> r is Ok,
        (passphrase is Some && json_size_bound(entries_view(entries@)) <= aes_gcm_max_plaintext()) ==> r is Ok,
        passphrase is None ==> (r matches Err(e) && e@ == passphrase_missing()),
{
    let plaintext = entries_to_json(entries);
    let key = derive_key(passphrase, salt.as_slice())?;
    let ciphertext = seal_aes256gcm(key.as_slice(), nonce.as_slice(), plaintext.as_slice())?;
    Ok(
        EncryptedBlob {
            salt_b64: encode_base64(salt.as_slice()),
            nonce_b64: encode_base64(nonce.as_slice()),
            ciphertext_b64: encode_base64(ciphertext.as_slice()),
        },
    )
}

/// `encrypt_map`: [`encrypt_map_with`] with a fresh random salt and nonce.
/// Whatever they are, decrypting the result with the same passphrase gives
/// back the same entries.
pub fn encrypt_map(entries: &Vec<(String, String)>, passphrase: &Option<String>) -> (r: Result<EncryptedBlob, String>)
    requires
        keys_distinct(entries_view(entries@)),
    ensures
        exists|salt: Seq<u8>, nonce: Seq<u8>|
            salt.len() == SALT_LEN && nonce.len() == NONCE_LEN && match r {
                Ok(b) => #[trigger] seal_spec(entries_view(entries@), crate::backend::opt_view(*passphrase), salt, nonce)
                    == Ok::<BlobView, Seq<char>>(b@),
                Err(e) => seal_spec(entries_view(entries@), crate::backend::opt_view(*passphrase), salt, nonce)
                    == Err::<BlobView, Seq<char>>(e@),
            },
        r matches Ok(b) ==> open_spec(b@, crate::backend::opt_view(*passphrase)) matches Ok(m) && keys_distinct(m)
            && same_entries(m, entries_view(entries@)),
        (passphrase is Some && sealable(entries_view(entries@))) ==> r is Ok,
        (passphrase is Some && json_size_bound(entries_view(entries@)) <= aes_gcm_max_plaintext()) ==> r is Ok,
        passphrase is None ==> (r matches Err(e) && e@ == passphrase_missing()),
{
    let salt = random_bytes(SALT_LEN);
    let nonce = random_bytes(NONCE_LEN);
    encrypt_map_with(entries, passphrase, &salt, &nonce)
}

/// [`open_spec`].
pub fn decrypt_map(blob: &EncryptedBlob, passphrase: &Option<String>) -> (r: Result<Vec<(String, String)>, String>)
    ensures
        match r {
            Ok(es) => open_spec(blob@, crate::backend::opt_view(*passphrase)) == Ok::<
                Seq<(Seq<char>, Seq<char>)>,
                Seq<char>,
            >(entries_view(es@)) && keys_distinct(entries_view(es@)),
            Err(e) => open_spec(blob@, crate::backend::opt_view(*passphrase)) == Err::<
                Seq<(Seq<char>, Seq<char>)>,
                Seq<char>,
            >(e@),
        },
{
    let salt = decode_base64(blob.salt_b64.as_str())?;
    let nonce = decode_base64(blob.nonce_b64.as_str())?;
    let ciphertext = decode_base64(blob.ciphertext_b64.as_str())?;
    if nonce.len() != NONCE_LEN {
        return Err("Invalid nonce length in encrypted secret file".to_owned());
    }
    let key = derive_key(passphrase, salt.as_slice())?;
    let plaintext = open_aes256gcm(key.as_slice(), nonce.as_slice(), ciphertext.as_slice())?;
    entries_from_json(plaintext.as_slice())
}

} // verus!
