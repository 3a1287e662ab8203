//! Credential records and the plaintext envelope of a vault file: the marker line
//! `MAGIC\n` followed by the serialized records.
use crate::crypt::{
    decrypt, decrypt_result, encrypt, is_container_of, passphrase_fits, MAX_SEAL_LEN,
};
use crate::error::VaultError;
use vstd::prelude::*;

verus! {

/// One stored credential, with the display flags that travel with it in the vault file.
#[derive(Clone, Debug)]
pub struct Entry {
    pub service: String,
    pub email: String,
    pub password: String,
    pub description: String,
    pub show_password: bool,
    pub edit_mode: bool,
    pub should_delete: bool,
}

impl Default for Entry {
    /// The sample record that a newly added entry starts from.
    fn default() -> (r: Entry)
        ensures
            r.service@ == "Example Service"@,
            r.email@ == "example@gmail.com"@,
            r.password@ == "password123"@,
            r.description@ == "This is a sample entry."@,
            !r.show_password,
            !r.edit_mode,
            !r.should_delete,
    {
        Entry {
            service: String::from_str("Example Service"),
            email: String::from_str("example@gmail.com"),
            password: String::from_str("password123"),
            description: String::from_str("This is a sample entry."),
            show_password: false,
            edit_mode: false,
            should_delete: false,
        }
    }
}

impl Entry {
    /// The password as the entry's card shows it: in clear once revealed, masked otherwise.
    pub fn shown_password(&self) -> (r: &str)
        ensures
            r@ == (if self.show_password { self.password@ } else { "••••••••"@ }),
    {
        if self.show_password {
            self.password.as_str()
        } else {
            "••••••••"
        }
    }

    /// Reveals a masked password, or masks a revealed one.
    pub fn toggle_password(&mut self)
        ensures
            final(self).show_password == !old(self).show_password,
            final(self).edit_mode == old(self).edit_mode,
            final(self).password@ == old(self).password@,
    {
        self.show_password = !self.show_password;
    }

    /// Turns the card into a form for its fields.
    pub fn start_edit(&mut self)
        ensures
            final(self).edit_mode,
            final(self).show_password == old(self).show_password,
            final(self).password@ == old(self).password@,
    {
        self.edit_mode = true;
    }

    /// Turns the form back into a card; the fields keep what was typed.
    pub fn finish_edit(&mut self)
        ensures
            !final(self).edit_mode,
            final(self).show_password == old(self).show_password,
            final(self).service@ == old(self).service@,
            final(self).email@ == old(self).email@,
            final(self).password@ == old(self).password@,
            final(self).description@ == old(self).description@,
    {
        self.edit_mode = false;
    }
}

/// Number of bytes of the envelope's marker line.
pub const MAGIC_LEN: usize = 6;

/// The marker line `MAGIC\n` in ASCII.
pub open spec fn magic_line() -> Seq<u8> {
    seq![0x4du8, 0x41u8, 0x47u8, 0x49u8, 0x43u8, 0x0au8]
}

/// The plaintext stored for a serialized payload.
pub open spec fn envelope(payload: Seq<u8>) -> Seq<u8> {
    magic_line() + payload
}

/// The payload of a decrypted plaintext, or `InvalidContainer` where the marker is missing.
pub open spec fn envelope_payload(plaintext: Seq<u8>) -> Result<Seq<u8>, VaultError> {
    if plaintext.len() >= MAGIC_LEN && plaintext.subrange(0, MAGIC_LEN as int) == magic_line() {
        Ok(plaintext.subrange(MAGIC_LEN as int, plaintext.len() as int))
    } else {
        Err(VaultError::InvalidContainer)
    }
}

/// What opening a vault container under `passphrase` gives.
pub open spec fn open_vault_result(c: Seq<u8>, passphrase: Seq<char>) -> Result<Seq<u8>, VaultError> {
    match decrypt_result(c, passphrase) {
        Ok(plaintext) => envelope_payload(plaintext),
        Err(e) => Err(e),
    }
}

fn magic_bytes() -> (r: Vec<u8>)
    ensures
        r@ == magic_line(),
{
    let r = vec![0x4du8, 0x41u8, 0x47u8, 0x49u8, 0x43u8, 0x0au8];
    assert(r@ =~= magic_line());
    r
}

/// Prefixes a serialized payload with the marker line.
pub fn wrap_envelope(payload: &[u8]) -> (r: Vec<u8>)
    ensures
        r@ == envelope(payload@),
{
    let mut r = magic_bytes();
    r.extend_from_slice(payload);
    assert(r@ =~= envelope(payload@));
    r
}

/// Checks the marker line of a decrypted plaintext and returns what follows it.
pub fn unwrap_envelope(plaintext: &[u8]) -> (r: Result<Vec<u8>, VaultError>)
    ensures
        crate::crypt::result_view(r) == envelope_payload(plaintext@),
{
    let magic = magic_bytes();
    if plaintext.len() < MAGIC_LEN {
        return Err(VaultError::InvalidContainer);
    }
    let mut i: usize = 0;
    while i < MAGIC_LEN
        invariant
            i <= MAGIC_LEN,
            plaintext@.len() >= MAGIC_LEN,
            magic@ == magic_line(),
            forall|k: int| 0 <= k < i ==> plaintext@[k] == magic@[k],
        decreases MAGIC_LEN - i,
    {
        if plaintext[i] != magic[i] {
            assert(plaintext@.subrange(0, MAGIC_LEN as int)[i as int] != magic_line()[i as int]);
            return Err(VaultError::InvalidContainer);
        }
        i = i + 1;
    }
    assert(plaintext@.subrange(0, MAGIC_LEN as int) =~= magic_line());
    let payload = &plaintext[MAGIC_LEN..plaintext.len()];
    Ok(vstd::slice::slice_to_vec(payload))
}

/// Encrypts a serialized collection of entries as a vault container.
pub fn seal_vault(payload: &[u8], passphrase: &str) -> (r: Result<Vec<u8>, VaultError>)
    requires
        passphrase_fits(passphrase@),
    ensures
        r is Ok ==> is_container_of(r->Ok_0@, envelope(payload@), passphrase@),
        r is Err ==> r == Err::<Vec<u8>, VaultError>(VaultError::RandomUnavailable)
            || (r == Err::<Vec<u8>, VaultError>(VaultError::PayloadTooLarge)
                && envelope(payload@).len() > MAX_SEAL_LEN),
{
    let plaintext = wrap_envelope(payload);
    encrypt(&plaintext, passphrase)
}

/// Decrypts a vault container and returns the serialized collection of entries.
pub fn open_vault(container: &[u8], passphrase: &str) -> (r: Result<Vec<u8>, VaultError>)
    requires
        passphrase_fits(passphrase@),
    ensures
        crate::crypt::result_view(r) == open_vault_result(container@, passphrase@),
{
    match decrypt(container, passphrase) {
        Ok(plaintext) => unwrap_envelope(&plaintext),
        Err(e) => Err(e),
    }
}

/// The file name of a vault: its name followed by `.vault`.
pub fn vault_file_name(name: &str) -> (r: String)
    ensures
        r@ == name@ + ".vault"@,
{
    String::from_str(name).concat(".vault")
}

/// Opening a vault container under the passphrase that sealed it gives back exactly the
/// payload that was sealed.
pub proof fn lemma_vault_round_trip(c: Seq<u8>, payload: Seq<u8>, passphrase: Seq<char>)
    requires
        is_container_of(c, envelope(payload), passphrase),
    ensures
        open_vault_result(c, passphrase) == Ok::<Seq<u8>, VaultError>(payload),
{
    crate::crypt::lemma_round_trip(c, envelope(payload), passphrase);
    assert(envelope(payload).subrange(0, MAGIC_LEN as int) =~= magic_line());
    assert(envelope(payload).subrange(MAGIC_LEN as int, envelope(payload).len() as int) =~= payload);
}

} // verus!
