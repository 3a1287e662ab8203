use vstd::prelude::*;

verus! {

/// Every way in which an operation of the engine can fail.
#[derive(Debug, Clone, Copy, PartialEq, Eq, Structural)]
pub enum VaultError {
    /// No vault file exists for the requested name.
    VaultNotFound,
    /// Authentication of the container failed: wrong passphrase or corrupted bytes.
    WrongPassphraseOrCorrupted,
    /// The container decrypted, but the plaintext lacks the envelope marker.
    InvalidContainer,
    /// The envelope was intact but its payload could not be deserialized.
    CorruptPayload,
    /// The bytes are too short to hold salt, nonce and authentication tag.
    MalformedContainer,
    /// A vault of that name is already registered.
    DuplicateName,
    /// The name cannot be used as a vault name (empty, or not a plain file name).
    InvalidName,
    /// A required field (vault name or passphrase) was left empty.
    MissingField,
    /// A vault or registry file exists but could not be read or written.
    FileAccess,
    /// The system's secure random source failed.
    RandomUnavailable,
    /// The plaintext exceeds what the cipher can seal in one message.
    PayloadTooLarge,
}

impl VaultError {
    /// A human-readable description, free of any secret.
    pub fn message(&self) -> &'static str {
        match self {
            VaultError::VaultNotFound => "No vault exists with this name.",
            VaultError::WrongPassphraseOrCorrupted => "Invalid password or corrupted vault.",
            VaultError::InvalidContainer => "Invalid password.",
            VaultError::CorruptPayload => "Vault is corrupted (invalid entry data).",
            VaultError::MalformedContainer => "Vault file is too short to be valid.",
            VaultError::DuplicateName => "A vault with this name already exists.",
            VaultError::InvalidName => "This name cannot be used for a vault.",
            VaultError::MissingField => "All fields are required.",
            VaultError::FileAccess => "The vault file could not be read or written.",
            VaultError::RandomUnavailable => "The secure random source failed.",
            VaultError::PayloadTooLarge => "The data is too large to encrypt.",
        }
    }
}

} // verus!
