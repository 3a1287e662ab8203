//! The state of the vault screens and the decisions taken on each user action. The
//! caller draws the screens, performs the file work that an action asks for, and
//! reports its outcome back.
use crate::entry::Entry;
use crate::error::VaultError;
use crate::user::{has_name, is_touched, is_valid_vault_name, without_name, User, Users};
use vstd::prelude::*;

verus! {

/// Which screen is shown.
#[derive(Clone, Copy, Debug, PartialEq, Eq, Structural)]
pub enum Screen {
    /// The list of vaults; every vault is locked.
    Login,
    /// The entries of the unlocked vault.
    Entry,
}

/// Which dialog is open over the vault list.
#[derive(Clone, Copy, Debug, PartialEq, Eq, Structural)]
pub enum Popup {
    Closed,
    Create,
    Login,
    Delete,
}

/// A request to create a vault, handed to the caller once the form is accepted: the
/// caller stores the registry and writes an empty vault under this name and passphrase.
pub struct NewVault {
    pub name: String,
    pub passphrase: String,
}

/// The state of the application around the engine.
pub struct Vault {
    pub screen: Screen,
    pub popup: Popup,
    pub login_error: Option<VaultError>,
    pub new_user_name: String,
    pub new_user_password: String,
    pub creation_error: Option<VaultError>,
    pub users: Users,
    pub entries: Vec<Entry>,
    /// The vault selected on the list, whose passphrase is being asked for or which is open.
    pub vault_user: Option<User>,
    /// The passphrase typed for the selected vault.
    pub vault_key: String,
}

impl Vault {
    /// The start state over a registry that the caller has loaded.
    pub fn new(users: Users) -> (r: Vault)
        ensures
            r.screen == Screen::Login,
            r.popup == Popup::Closed,
            r.login_error is None,
            r.creation_error is None,
            r.new_user_name@.len() == 0,
            r.new_user_password@.len() == 0,
            r.users.users@ == users.users@,
            r.entries@.len() == 0,
            r.vault_user is None,
            r.vault_key@.len() == 0,
    {
        Vault {
            screen: Screen::Login,
            popup: Popup::Closed,
            login_error: None,
            new_user_name: String::new(),
            new_user_password: String::new(),
            creation_error: None,
            users,
            entries: Vec::new(),
            vault_user: None,
            vault_key: String::new(),
        }
    }

    /// Opens the form for a new vault.
    pub fn open_create_popup(&mut self)
        ensures
            final(self).popup == Popup::Create,
            final(self).screen == old(self).screen,
            final(self).users.users@ == old(self).users.users@,
    {
        self.popup = Popup::Create;
    }

    /// Accepts or refuses the new-vault form. Both fields are required, the name must be
    /// usable as a file name and not yet registered. On success the vault is registered,
    /// the form is cleared and closed, and the caller is told what to write.
    pub fn submit_create(&mut self) -> (r: Option<NewVault>)
        ensures
            ({
                let name = old(self).new_user_name@;
                let pass = old(self).new_user_password@;
                let expected_error = if name.len() == 0 || pass.len() == 0 {
                    Some(VaultError::MissingField)
                } else if !is_valid_vault_name(name) {
                    Some(VaultError::InvalidName)
                } else if has_name(old(self).users.users@, name) {
                    Some(VaultError::DuplicateName)
                } else {
                    None
                };
                match expected_error {
                    Some(e) => {
                        &&& r is None
                        &&& final(self).creation_error == Some(e)
                        &&& final(self).popup == old(self).popup
                        &&& final(self).users.users@ == old(self).users.users@
                        &&& final(self).new_user_name@ == name
                        &&& final(self).new_user_password@ == pass
                    },
                    None => {
                        &&& r is Some
                        &&& r->0.name@ == name
                        &&& r->0.passphrase@ == pass
                        &&& final(self).creation_error is None
                        &&& final(self).popup == Popup::Closed
                        &&& final(self).users.users@.len() == old(self).users.users@.len() + 1
                        &&& final(self).users.users@.take(old(self).users.users@.len() as int)
                            == old(self).users.users@
                        &&& final(self).users.users@.last().name@ == name
                        &&& final(self).new_user_name@.len() == 0
                        &&& final(self).new_user_password@.len() == 0
                    },
                }
            }),
            final(self).screen == old(self).screen,
            final(self).entries@ == old(self).entries@,
    {
        if self.new_user_name.as_str().is_empty() || self.new_user_password.as_str().is_empty() {
            self.creation_error = Some(VaultError::MissingField);
            return None;
        }
        match self.users.register_vault(self.new_user_name.clone()) {
            Err(e) => {
                self.creation_error = Some(e);
                None
            },
            Ok(()) => {
                let mut name = String::new();
                let mut passphrase = String::new();
                std::mem::swap(&mut name, &mut self.new_user_name);
                std::mem::swap(&mut passphrase, &mut self.new_user_password);
                self.creation_error = None;
                self.popup = Popup::Closed;
                Some(NewVault { name, passphrase })
            },
        }
    }

    /// Closes the new-vault form.
    pub fn cancel_create(&mut self)
        ensures
            final(self).popup == Popup::Closed,
            final(self).creation_error is None,
            final(self).screen == old(self).screen,
            final(self).users.users@ == old(self).users.users@,
    {
        self.popup = Popup::Closed;
        self.creation_error = None;
    }

    /// Selects a vault of the list and asks for its passphrase.
    pub fn select_vault(&mut self, index: usize)
        requires
            index < old(self).users.users@.len(),
        ensures
            final(self).popup == Popup::Login,
            final(self).login_error is None,
            final(self).vault_user is Some,
            final(self).vault_user->0.name@ == old(self).users.users@[index as int].name@,
            final(self).vault_user->0.last_accessed@ == old(self).users.users@[index as int].last_accessed@,
            final(self).vault_key@.len() == 0,
            final(self).screen == old(self).screen,
            final(self).users.users@ == old(self).users.users@,
    {
        let chosen = &self.users.users[index];
        let user = User { name: chosen.name.clone(), last_accessed: chosen.last_accessed.clone() };
        self.login_error = None;
        self.popup = Popup::Login;
        self.vault_user = Some(user);
        self.vault_key = String::new();
    }

    /// Takes the outcome of opening the selected vault with `vault_key`. On success the
    /// entries are shown and the vault's access time is renewed, after which the caller
    /// stores the registry; on failure the reason is shown in the dialog.
    pub fn finish_unlock(&mut self, outcome: Result<Vec<Entry>, VaultError>)
        requires
            old(self).vault_user is Some,
        ensures
            match outcome {
                Ok(entries) => {
                    &&& final(self).entries@ == entries@
                    &&& final(self).screen == Screen::Entry
                    &&& final(self).popup == Popup::Closed
                    &&& final(self).login_error is None
                    &&& is_touched(old(self).users.users@, final(self).users.users@, old(self).vault_user->0.name@)
                    &&& final(self).users.users@.len() == old(self).users.users@.len()
                    &&& forall|i: int| 0 <= i < old(self).users.users@.len()
                        ==> #[trigger] final(self).users.users@[i].name@ == old(self).users.users@[i].name@
                },
                Err(e) => {
                    &&& final(self).login_error == Some(e)
                    &&& final(self).entries@ == old(self).entries@
                    &&& final(self).screen == old(self).screen
                    &&& final(self).popup == old(self).popup
                    &&& final(self).users.users@ == old(self).users.users@
                },
            },
            final(self).vault_user == old(self).vault_user,
    {
        match outcome {
            Ok(entries) => {
                self.entries = entries;
                self.screen = Screen::Entry;
                self.login_error = None;
                self.popup = Popup::Closed;
                let name = match &self.vault_user {
                    Some(u) => u.name.as_str(),
                    None => "",
                };
                let ghost before = self.users.users@;
                self.users.touch_vault(name);
                proof {
                    if has_name(before, name@) {
                        let j = choose|j: int| 0 <= j < before.len() && #[trigger] before[j].name@ == name@;
                        lemma_first_exists(before, name@, j);
                        let f = choose|f: int| crate::user::first_with_name(before, name@, f);
                        assert forall|i: int| 0 <= i < before.len()
                            implies #[trigger] self.users.users@[i].name@ == before[i].name@ by {
                            if i != f {
                                assert(self.users.users@[i] == before[i]);
                            }
                        }
                    }
                }
            },
            Err(e) => {
                self.login_error = Some(e);
            },
        }
    }

    /// Closes the passphrase dialog and forgets the selection.
    pub fn close_login(&mut self)
        ensures
            final(self).popup == Popup::Closed,
            final(self).login_error is None,
            final(self).vault_user is None,
            final(self).vault_key@.len() == 0,
            final(self).screen == old(self).screen,
            final(self).users.users@ == old(self).users.users@,
    {
        self.popup = Popup::Closed;
        self.login_error = None;
        self.vault_key = String::new();
        self.vault_user = None;
    }

    /// Switches the passphrase dialog to the confirmation of a deletion.
    pub fn request_delete(&mut self)
        ensures
            final(self).popup == Popup::Delete,
            final(self).screen == old(self).screen,
            final(self).vault_user == old(self).vault_user,
            final(self).users.users@ == old(self).users.users@,
    {
        self.popup = Popup::Delete;
    }

    /// Takes the outcome of opening the selected vault to confirm its deletion. On success
    /// the vault leaves the registry (its file stays) and the selection is forgotten,
    /// after which the caller stores the registry; on failure the reason is shown.
    pub fn finish_delete(&mut self, outcome: Result<(), VaultError>)
        requires
            old(self).vault_user is Some,
        ensures
            match outcome {
                Ok(()) => {
                    &&& final(self).users.users@ == without_name(
                        old(self).users.users@,
                        old(self).vault_user->0.name@,
                    )
                    &&& final(self).vault_user is None
                    &&& final(self).vault_key@.len() == 0
                    &&& final(self).popup == Popup::Closed
                    &&& final(self).login_error is None
                },
                Err(e) => {
                    &&& final(self).login_error == Some(e)
                    &&& final(self).users.users@ == old(self).users.users@
                    &&& final(self).vault_user == old(self).vault_user
                    &&& final(self).popup == old(self).popup
                },
            },
            final(self).screen == old(self).screen,
            final(self).entries@ == old(self).entries@,
    {
        match outcome {
            Ok(()) => {
                match &self.vault_user {
                    Some(u) => self.users.remove_vault(u.name.as_str()),
                    None => {},
                }
                self.vault_user = None;
                self.vault_key = String::new();
                self.popup = Popup::Closed;
                self.login_error = None;
            },
            Err(e) => {
                self.login_error = Some(e);
            },
        }
    }

    /// Leaves the deletion dialog and forgets the selection.
    pub fn cancel_delete(&mut self)
        ensures
            final(self).popup == Popup::Closed,
            final(self).login_error is None,
            final(self).vault_user is None,
            final(self).vault_key@.len() == 0,
            final(self).screen == old(self).screen,
            final(self).users.users@ == old(self).users.users@,
    {
        self.popup = Popup::Closed;
        self.login_error = None;
        self.vault_user = None;
        self.vault_key = String::new();
    }

    /// Appends the sample entry to the open vault; the caller then saves the vault.
    pub fn add_entry(&mut self)
        ensures
            final(self).entries@.len() == old(self).entries@.len() + 1,
            final(self).entries@.take(old(self).entries@.len() as int) == old(self).entries@,
            final(self).entries@.last().service@ == "Example Service"@,
            final(self).screen == old(self).screen,
            final(self).vault_user == old(self).vault_user,
    {
        let ghost before = self.entries@;
        self.entries.push(Entry::default());
        assert(self.entries@.take(before.len() as int) =~= before);
    }

    /// Locks the open vault: its entries, selection and passphrase are dropped.
    pub fn logout(&mut self)
        ensures
            final(self).entries@.len() == 0,
            final(self).vault_user is None,
            final(self).vault_key@.len() == 0,
            final(self).screen == Screen::Login,
            final(self).users.users@ == old(self).users.users@,
    {
        self.entries.clear();
        self.vault_user = None;
        self.vault_key = String::new();
        self.screen = Screen::Login;
    }
}

proof fn lemma_first_exists(users: Seq<User>, name: Seq<char>, j: int)
    requires
        0 <= j < users.len(),
        users[j].name@ == name,
    ensures
        exists|f: int| crate::user::first_with_name(users, name, f),
    decreases j,
{
    if exists|k: int| 0 <= k < j && #[trigger] users[k].name@ == name {
        let k = choose|k: int| 0 <= k < j && #[trigger] users[k].name@ == name;
        lemma_first_exists(users, name, k);
    } else {
        assert(crate::user::first_with_name(users, name, j));
    }
}

} // verus!
