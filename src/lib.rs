//! Vault engine of a local password manager: passphrase-based key derivation,
//! authenticated encryption of vault containers, the plaintext envelope of a
//! vault, the registry of known vaults and the decisions of the vault screens.

pub mod crypt;
pub mod entry;
pub mod error;
pub mod icon;
pub mod text;
pub mod user;
pub mod vault;
