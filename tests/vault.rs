use password_manager::entry::Entry;
use password_manager::error::VaultError;
use password_manager::user::{Timestamp, User, Users};
use password_manager::vault::{Popup, Screen, Vault};

fn registry(names: &[&str]) -> Users {
    let t = Timestamp { year: 2024, month: 1, day: 1, hour: 0, minute: 0, second: 0 };
    Users { users: names.iter().map(|n| User::accessed_at(n.to_string(), &t)).collect() }
}

#[test]
fn starts_locked_on_the_list() {
    let v = Vault::new(registry(&["a"]));
    assert_eq!(v.screen, Screen::Login);
    assert_eq!(v.popup, Popup::Closed);
    assert!(v.vault_user.is_none());
    assert_eq!(v.users.users.len(), 1);
}

#[test]
fn create_requires_both_fields() {
    let mut v = Vault::new(Users::new());
    v.open_create_popup();
    v.new_user_name = "alice".to_string();
    assert!(v.submit_create().is_none());
    assert_eq!(v.creation_error, Some(VaultError::MissingField));
    assert_eq!(v.popup, Popup::Create);
    assert!(v.users.users.is_empty());
}

#[test]
fn create_refuses_duplicates_and_bad_names() {
    let mut v = Vault::new(registry(&["alice"]));
    v.open_create_popup();
    v.new_user_name = "alice".to_string();
    v.new_user_password = "p1".to_string();
    assert!(v.submit_create().is_none());
    assert_eq!(v.creation_error, Some(VaultError::DuplicateName));
    v.new_user_name = "../alice".to_string();
    assert!(v.submit_create().is_none());
    assert_eq!(v.creation_error, Some(VaultError::InvalidName));
    assert_eq!(v.users.users.len(), 1);
}

#[test]
fn create_registers_and_hands_out_the_request() {
    let mut v = Vault::new(Users::new());
    v.open_create_popup();
    v.new_user_name = "alice".to_string();
    v.new_user_password = "p1".to_string();
    let req = v.submit_create().unwrap();
    assert_eq!(req.name, "alice");
    assert_eq!(req.passphrase, "p1");
    assert_eq!(v.popup, Popup::Closed);
    assert_eq!(v.creation_error, None);
    assert!(v.new_user_name.is_empty() && v.new_user_password.is_empty());
    assert_eq!(v.users.users.len(), 1);
    assert_eq!(v.users.users[0].name, "alice");
}

#[test]
fn cancel_create_closes_form() {
    let mut v = Vault::new(Users::new());
    v.open_create_popup();
    v.new_user_name = "".to_string();
    v.submit_create();
    v.cancel_create();
    assert_eq!(v.popup, Popup::Closed);
    assert_eq!(v.creation_error, None);
}

#[test]
fn unlock_success_shows_entries_and_touches() {
    let mut v = Vault::new(registry(&["a", "b"]));
    v.select_vault(1);
    assert_eq!(v.popup, Popup::Login);
    assert_eq!(v.vault_user.as_ref().unwrap().name, "b");
    v.vault_key = "pw".to_string();
    v.finish_unlock(Ok(vec![Entry::default(), Entry::default()]));
    assert_eq!(v.screen, Screen::Entry);
    assert_eq!(v.popup, Popup::Closed);
    assert_eq!(v.entries.len(), 2);
    assert_eq!(v.users.users[0].last_accessed, "2024-01-01 00:00:00");
    assert_eq!(v.users.users[1].name, "b");
}

#[test]
fn unlock_failure_shows_reason() {
    let mut v = Vault::new(registry(&["a"]));
    v.select_vault(0);
    v.finish_unlock(Err(VaultError::WrongPassphraseOrCorrupted));
    assert_eq!(v.login_error, Some(VaultError::WrongPassphraseOrCorrupted));
    assert_eq!(v.screen, Screen::Login);
    assert_eq!(v.popup, Popup::Login);
    v.close_login();
    assert!(v.vault_user.is_none());
    assert_eq!(v.login_error, None);
}

#[test]
fn delete_forgets_the_vault() {
    let mut v = Vault::new(registry(&["a", "b"]));
    v.select_vault(0);
    v.request_delete();
    assert_eq!(v.popup, Popup::Delete);
    v.finish_delete(Err(VaultError::WrongPassphraseOrCorrupted));
    assert_eq!(v.users.users.len(), 2);
    assert_eq!(v.login_error, Some(VaultError::WrongPassphraseOrCorrupted));
    v.finish_delete(Ok(()));
    assert_eq!(v.users.users.len(), 1);
    assert_eq!(v.users.users[0].name, "b");
    assert!(v.vault_user.is_none());
    assert_eq!(v.popup, Popup::Closed);
}

#[test]
fn cancel_delete_forgets_selection() {
    let mut v = Vault::new(registry(&["a"]));
    v.select_vault(0);
    v.request_delete();
    v.cancel_delete();
    assert!(v.vault_user.is_none());
    assert_eq!(v.users.users.len(), 1);
}

#[test]
fn add_entry_then_logout() {
    let mut v = Vault::new(registry(&["a"]));
    v.select_vault(0);
    v.finish_unlock(Ok(Vec::new()));
    v.add_entry();
    assert_eq!(v.entries.len(), 1);
    assert_eq!(v.entries[0].service, "Example Service");
    v.logout();
    assert!(v.entries.is_empty());
    assert!(v.vault_user.is_none());
    assert!(v.vault_key.is_empty());
    assert_eq!(v.screen, Screen::Login);
}

#[test]
fn error_messages_are_distinct() {
    assert_eq!(VaultError::MissingField.message(), "All fields are required.");
    assert_eq!(VaultError::DuplicateName.message(), "A vault with this name already exists.");
    assert_ne!(
        VaultError::WrongPassphraseOrCorrupted.message(),
        VaultError::CorruptPayload.message()
    );
}
