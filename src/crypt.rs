//! The encrypted container: `salt ‖ nonce ‖ ChaCha20-Poly1305(key, nonce, plaintext) ‖ tag`,
//! where the key is PBKDF2-HMAC-SHA256 of the passphrase and the salt.
use crate::error::VaultError;
use ring::{aead, pbkdf2, rand};
use std::num::NonZeroU32;
use vstd::prelude::*;

verus! {

pub const SALT_LEN: usize = 16;

pub const NONCE_LEN: usize = 12;

pub const TAG_LEN: usize = 16;

pub const KEY_LEN: usize = 32;

/// Shortest byte string that can be a container: salt, nonce and an empty message's tag.
pub const MIN_CONTAINER_LEN: usize = SALT_LEN + NONCE_LEN + TAG_LEN;

pub const KDF_ITERATIONS: u32 = 100_000;

/// Longest plaintext that ChaCha20-Poly1305 seals in one message (RFC 8439, section 2.8).
pub const MAX_SEAL_LEN: u64 = 274_877_906_880;

/// Longest passphrase, in UTF-8 bytes, that the key derivation accepts.
pub const MAX_PASSPHRASE_BYTES: u64 = 0x1000_0000_0000_0000;

#[verifier::external_type_specification]
#[verifier::external_body]
pub struct ExUnspecified(ring::error::Unspecified);

/// The key that PBKDF2-HMAC-SHA256 derives.
pub uninterp spec fn pbkdf2_hmac_sha256(iterations: u32, salt: Seq<u8>, secret: Seq<u8>, len: nat) -> Seq<u8>;

/// Ciphertext followed by the 16-byte tag, as ChaCha20-Poly1305 seals it without associated data.
pub uninterp spec fn chacha20_poly1305_seal(key: Seq<u8>, nonce: Seq<u8>, plaintext: Seq<u8>) -> Seq<u8>;

/// The plaintext of a sealed message, or `None` where its tag does not authenticate.
pub uninterp spec fn chacha20_poly1305_open(key: Seq<u8>, nonce: Seq<u8>, sealed: Seq<u8>) -> Option<Seq<u8>>;

/// Relies on `ring::pbkdf2::derive` with `PBKDF2_HMAC_SHA256`: fills `out_len` bytes with
/// the derived key, a function of its inputs alone. It panics only on an output longer
/// than `u32::MAX` digests or on a salt or secret too long for SHA-256 (2^61 bytes).
#[verifier::external_body]
fn pbkdf2_derive(iterations: u32, salt: &[u8], secret: &[u8], out_len: usize) -> (r: Vec<u8>)
    requires
        iterations > 0,
        salt@.len() <= MAX_PASSPHRASE_BYTES,
        secret@.len() <= MAX_PASSPHRASE_BYTES,
        out_len <= KEY_LEN,
    ensures
        r@ == pbkdf2_hmac_sha256(iterations, salt@, secret@, out_len as nat),
        r@.len() == out_len,
{
    let mut out = vec![0u8; out_len];
    pbkdf2::derive(pbkdf2::PBKDF2_HMAC_SHA256, NonZeroU32::new(iterations).unwrap(), salt, secret, &mut out);
    out
}

/// Relies on `ring::rand::SystemRandom` and `SecureRandom::fill`: `len` bytes from the
/// operating system's secure random source, or the source's failure.
#[verifier::external_body]
fn random_bytes(len: usize) -> (r: Result<Vec<u8>, ring::error::Unspecified>)
    ensures
        r is Ok ==> r->Ok_0@.len() == len,
{
    let mut buf = vec![0u8; len];
    rand::SecureRandom::fill(&rand::SystemRandom::new(), &mut buf)?;
    Ok(buf)
}

/// Relies on `ring::aead::LessSafeKey::seal_in_place_append_tag` with `CHACHA20_POLY1305`
/// and no associated data. It fails only on a plaintext longer than `MAX_SEAL_LEN`; it
/// appends a 16-byte tag, and opening its output under the same key and nonce gives the
/// plaintext back.
#[verifier::external_body]
fn chacha_seal(key: &[u8], nonce: &[u8], plaintext: &[u8]) -> (r: Result<Vec<u8>, ring::error::Unspecified>)
    requires
        key@.len() == KEY_LEN,
        nonce@.len() == NONCE_LEN,
    ensures
        r is Ok <==> plaintext@.len() <= MAX_SEAL_LEN,
        r is Ok ==> r->Ok_0@ == chacha20_poly1305_seal(key@, nonce@, plaintext@),
        r is Ok ==> r->Ok_0@.len() == plaintext@.len() + TAG_LEN,
        r is Ok ==> chacha20_poly1305_open(key@, nonce@, r->Ok_0@) == Some(plaintext@),
{
    let key = aead::LessSafeKey::new(aead::UnboundKey::new(&aead::CHACHA20_POLY1305, key)?);
    let nonce = aead::Nonce::try_assume_unique_for_key(nonce)?;
    let mut in_out = plaintext.to_vec();
    key.seal_in_place_append_tag(nonce, aead::Aad::empty(), &mut in_out)?;
    Ok(in_out)
}

/// Relies on `ring::aead::LessSafeKey::open_in_place` with `CHACHA20_POLY1305` and no
/// associated data: the plaintext where the tag authenticates, which is 16 bytes shorter
/// than the input, and an error otherwise (always on an input shorter than the tag).
#[verifier::external_body]
fn chacha_open(key: &[u8], nonce: &[u8], sealed: &[u8]) -> (r: Result<Vec<u8>, ring::error::Unspecified>)
    requires
        key@.len() == KEY_LEN,
        nonce@.len() == NONCE_LEN,
    ensures
        r is Ok <==> chacha20_poly1305_open(key@, nonce@, sealed@) is Some,
        r is Ok ==> Some(r->Ok_0@) == chacha20_poly1305_open(key@, nonce@, sealed@),
        r is Ok ==> r->Ok_0@.len() + TAG_LEN == sealed@.len(),
{
    let key = aead::LessSafeKey::new(aead::UnboundKey::new(&aead::CHACHA20_POLY1305, key)?);
    let nonce = aead::Nonce::try_assume_unique_for_key(nonce)?;
    let mut in_out = sealed.to_vec();
    let plaintext = key.open_in_place(nonce, aead::Aad::empty(), &mut in_out)?;
    Ok(plaintext.to_vec())
}

/// The UTF-8 bytes of a passphrase.
pub open spec fn passphrase_bytes(passphrase: Seq<char>) -> Seq<u8> {
    vstd::utf8::encode_utf8(passphrase)
}

/// Whether the key derivation accepts the passphrase.
pub open spec fn passphrase_fits(passphrase: Seq<char>) -> bool {
    passphrase_bytes(passphrase).len() <= MAX_PASSPHRASE_BYTES
}

/// The symmetric key of a container with this salt.
pub open spec fn derived_key(passphrase: Seq<char>, salt: Seq<u8>) -> Seq<u8> {
    pbkdf2_hmac_sha256(KDF_ITERATIONS, salt, passphrase_bytes(passphrase), KEY_LEN as nat)
}

pub open spec fn container_salt(c: Seq<u8>) -> Seq<u8> {
    c.subrange(0, SALT_LEN as int)
}

pub open spec fn container_nonce(c: Seq<u8>) -> Seq<u8> {
    c.subrange(SALT_LEN as int, (SALT_LEN + NONCE_LEN) as int)
}

pub open spec fn container_sealed(c: Seq<u8>) -> Seq<u8> {
    c.subrange((SALT_LEN + NONCE_LEN) as int, c.len() as int)
}

/// The container that sealing `plaintext` under `passphrase` with this salt and nonce gives.
pub open spec fn container_with(plaintext: Seq<u8>, passphrase: Seq<char>, salt: Seq<u8>, nonce: Seq<u8>) -> Seq<u8> {
    salt + nonce + chacha20_poly1305_seal(derived_key(passphrase, salt), nonce, plaintext)
}

/// `c` is a container of `plaintext` under `passphrase`: its sealed part is the seal of
/// the plaintext under the key of its own salt and under its own nonce, and opens to it.
pub open spec fn is_container_of(c: Seq<u8>, plaintext: Seq<u8>, passphrase: Seq<char>) -> bool {
    &&& c.len() == plaintext.len() + MIN_CONTAINER_LEN
    &&& c == container_with(plaintext, passphrase, container_salt(c), container_nonce(c))
    &&& chacha20_poly1305_open(derived_key(passphrase, container_salt(c)), container_nonce(c), container_sealed(c))
        == Some(plaintext)
}

/// A byte result seen as a sequence of bytes.
pub open spec fn result_view(r: Result<Vec<u8>, VaultError>) -> Result<Seq<u8>, VaultError> {
    match r {
        Ok(v) => Ok(v@),
        Err(e) => Err(e),
    }
}

/// What decrypting `c` under `passphrase` gives.
pub open spec fn decrypt_result(c: Seq<u8>, passphrase: Seq<char>) -> Result<Seq<u8>, VaultError> {
    if c.len() < MIN_CONTAINER_LEN {
        Err(VaultError::MalformedContainer)
    } else {
        match chacha20_poly1305_open(derived_key(passphrase, container_salt(c)), container_nonce(c), container_sealed(c)) {
            Some(p) => Ok(p),
            None => Err(VaultError::WrongPassphraseOrCorrupted),
        }
    }
}

fn derive_key(passphrase: &str, salt: &[u8]) -> (key: Vec<u8>)
    requires
        passphrase_fits(passphrase@),
        salt@.len() == SALT_LEN,
    ensures
        key@ == derived_key(passphrase@, salt@),
        key@.len() == KEY_LEN,
{
    pbkdf2_derive(KDF_ITERATIONS, salt, passphrase.as_bytes(), KEY_LEN)
}

/// Seals `data` under `passphrase` with a given salt and nonce.
pub fn encrypt_with(data: &[u8], passphrase: &str, salt: &[u8], nonce: &[u8]) -> (r: Result<Vec<u8>, VaultError>)
    requires
        passphrase_fits(passphrase@),
        salt@.len() == SALT_LEN,
        nonce@.len() == NONCE_LEN,
    ensures
        r is Ok <==> data@.len() <= MAX_SEAL_LEN,
        r is Err ==> r == Err::<Vec<u8>, VaultError>(VaultError::PayloadTooLarge),
        r is Ok ==> r->Ok_0@ == container_with(data@, passphrase@, salt@, nonce@),
        r is Ok ==> is_container_of(r->Ok_0@, data@, passphrase@),
{
    let key = derive_key(passphrase, salt);
    let sealed = match chacha_seal(&key, nonce, data) {
        Ok(s) => s,
        Err(_) => return Err(VaultError::PayloadTooLarge),
    };
    let mut out: Vec<u8> = Vec::new();
    out.extend_from_slice(salt);
    out.extend_from_slice(nonce);
    out.extend_from_slice(&sealed);
    proof {
        let c = out@;
        assert(c =~= salt@ + nonce@ + sealed@);
        assert(container_salt(c) =~= salt@);
        assert(container_nonce(c) =~= nonce@);
        assert(container_sealed(c) =~= sealed@);
    }
    Ok(out)
}

/// Seals `data` under `passphrase` with a fresh random salt and nonce.
pub fn encrypt(data: &[u8], passphrase: &str) -> (r: Result<Vec<u8>, VaultError>)
    requires
        passphrase_fits(passphrase@),
    ensures
        r is Ok ==> is_container_of(r->Ok_0@, data@, passphrase@),
        r is Err ==> r == Err::<Vec<u8>, VaultError>(VaultError::RandomUnavailable)
            || (r == Err::<Vec<u8>, VaultError>(VaultError::PayloadTooLarge) && data@.len() > MAX_SEAL_LEN),
        data@.len() > MAX_SEAL_LEN ==> r is Err,
{
    let salt = match random_bytes(SALT_LEN) {
        Ok(s) => s,
        Err(_) => return Err(VaultError::RandomUnavailable),
    };
    let nonce = match random_bytes(NONCE_LEN) {
        Ok(n) => n,
        Err(_) => return Err(VaultError::RandomUnavailable),
    };
    encrypt_with(data, passphrase, &salt, &nonce)
}

/// Opens a container under `passphrase`.
pub fn decrypt(encrypted_data: &[u8], passphrase: &str) -> (r: Result<Vec<u8>, VaultError>)
    requires
        passphrase_fits(passphrase@),
    ensures
        result_view(r) == decrypt_result(encrypted_data@, passphrase@),
{
    if encrypted_data.len() < MIN_CONTAINER_LEN {
        return Err(VaultError::MalformedContainer);
    }
    let salt = &encrypted_data[0..SALT_LEN];
    let nonce = &encrypted_data[SALT_LEN..SALT_LEN + NONCE_LEN];
    let sealed = &encrypted_data[SALT_LEN + NONCE_LEN..encrypted_data.len()];
    let key = derive_key(passphrase, salt);
    match chacha_open(&key, nonce, sealed) {
        Ok(p) => Ok(p),
        Err(_) => Err(VaultError::WrongPassphraseOrCorrupted),
    }
}

/// Decrypting a container of `plaintext` under the passphrase it was sealed with gives
/// `plaintext` back.
pub proof fn lemma_round_trip(c: Seq<u8>, plaintext: Seq<u8>, passphrase: Seq<char>)
    requires
        is_container_of(c, plaintext, passphrase),
    ensures
        decrypt_result(c, passphrase) == Ok::<Seq<u8>, VaultError>(plaintext),
{
}

/// A container made under one passphrase and opened under any passphrase either opens
/// or fails as `WrongPassphraseOrCorrupted`; it is never taken for a malformed container.
pub proof fn lemma_other_passphrase_error_kind(c: Seq<u8>, plaintext: Seq<u8>, sealed_with: Seq<char>, opened_with: Seq<char>)
    requires
        is_container_of(c, plaintext, sealed_with),
    ensures
        decrypt_result(c, opened_with) is Ok
            || decrypt_result(c, opened_with) == Err::<Seq<u8>, VaultError>(VaultError::WrongPassphraseOrCorrupted),
{
}

/// Any byte string shorter than salt, nonce and tag together is rejected as malformed.
pub proof fn lemma_truncated_is_malformed(c: Seq<u8>, passphrase: Seq<char>)
    requires
        c.len() < MIN_CONTAINER_LEN,
    ensures
        decrypt_result(c, passphrase) == Err::<Seq<u8>, VaultError>(VaultError::MalformedContainer),
{
}

} // verus!
