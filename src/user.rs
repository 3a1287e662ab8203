//! The registry of known vaults: each vault's name and when it was last opened. The
//! registry is stored as a container sealed under a key built into the program, so its
//! contents are obscured, not secret.
use crate::crypt::{decrypt, decrypt_result, encrypt, is_container_of, passphrase_fits, result_view, MAX_SEAL_LEN};
use crate::error::VaultError;
use crate::text::chars_of;
use chrono::{Datelike, Timelike};
use vstd::prelude::*;

verus! {

/// A moment of local wall-clock time, to the second.
#[derive(Clone, Copy, Debug, PartialEq, Eq, Structural)]
pub struct Timestamp {
    pub year: i32,
    pub month: u32,
    pub day: u32,
    pub hour: u32,
    pub minute: u32,
    pub second: u32,
}

impl Timestamp {
    /// Each field lies in its calendar or clock range.
    pub open spec fn wf(&self) -> bool {
        &&& 1 <= self.month <= 12
        &&& 1 <= self.day <= 31
        &&& self.hour < 24
        &&& self.minute < 60
        &&& self.second < 60
    }
}

/// Relies on `chrono::Local::now` and the `Datelike` / `Timelike` accessors, which
/// document month 1 to 12, day 1 to 31, hour 0 to 23, minute and second 0 to 59.
#[verifier::external_body]
fn local_now() -> (r: Timestamp)
    ensures
        r.wf(),
{
    let now = chrono::Local::now();
    Timestamp {
        year: now.year(),
        month: now.month(),
        day: now.day(),
        hour: now.hour(),
        minute: now.minute(),
        second: now.second(),
    }
}

pub open spec fn digit_text(d: nat) -> Seq<char> {
    if d == 0 {
        "0"@
    } else if d == 1 {
        "1"@
    } else if d == 2 {
        "2"@
    } else if d == 3 {
        "3"@
    } else if d == 4 {
        "4"@
    } else if d == 5 {
        "5"@
    } else if d == 6 {
        "6"@
    } else if d == 7 {
        "7"@
    } else if d == 8 {
        "8"@
    } else {
        "9"@
    }
}

/// The decimal digits of `n`, without leading zeros.
pub open spec fn decimal(n: nat) -> Seq<char>
    decreases n,
{
    if n < 10 {
        digit_text(n)
    } else {
        decimal(n / 10) + digit_text(n % 10)
    }
}

/// Two decimal digits, zero-padded.
pub open spec fn two_digits(n: nat) -> Seq<char> {
    digit_text((n / 10) % 10) + digit_text(n % 10)
}

/// At least four decimal digits, zero-padded.
pub open spec fn four_digits(n: nat) -> Seq<char> {
    if n < 10000 {
        digit_text(n / 1000) + digit_text((n / 100) % 10) + digit_text((n / 10) % 10) + digit_text(n % 10)
    } else {
        decimal(n)
    }
}

/// A year as `%Y` writes it: four digits for years 0 to 9999, else a sign and at least four digits.
pub open spec fn year_text(y: int) -> Seq<char> {
    if 0 <= y <= 9999 {
        four_digits(y as nat)
    } else if y < 0 {
        "-"@ + four_digits((-y) as nat)
    } else {
        "+"@ + four_digits(y as nat)
    }
}

/// `YYYY-MM-DD HH:MM:SS`.
pub open spec fn timestamp_text(t: Timestamp) -> Seq<char> {
    year_text(t.year as int) + "-"@ + two_digits(t.month as nat) + "-"@ + two_digits(t.day as nat) + " "@
        + two_digits(t.hour as nat) + ":"@ + two_digits(t.minute as nat) + ":"@ + two_digits(t.second as nat)
}

fn digit_str(d: u64) -> (r: &'static str)
    requires
        d < 10,
    ensures
        r@ == digit_text(d as nat),
{
    if d == 0 {
        "0"
    } else if d == 1 {
        "1"
    } else if d == 2 {
        "2"
    } else if d == 3 {
        "3"
    } else if d == 4 {
        "4"
    } else if d == 5 {
        "5"
    } else if d == 6 {
        "6"
    } else if d == 7 {
        "7"
    } else if d == 8 {
        "8"
    } else {
        "9"
    }
}

fn push_decimal(s: &mut String, n: u64)
    ensures
        final(s)@ == old(s)@ + decimal(n as nat),
    decreases n,
{
    if n >= 10 {
        push_decimal(s, n / 10);
    }
    s.append(digit_str(n % 10));
    assert(final(s)@ =~= old(s)@ + decimal(n as nat));
}

fn push_two_digits(s: &mut String, n: u32)
    ensures
        final(s)@ == old(s)@ + two_digits(n as nat),
{
    s.append(digit_str(((n / 10) % 10) as u64));
    s.append(digit_str((n % 10) as u64));
    assert(final(s)@ =~= old(s)@ + two_digits(n as nat));
}

fn push_four_digits(s: &mut String, n: u64)
    ensures
        final(s)@ == old(s)@ + four_digits(n as nat),
{
    if n < 10000 {
        s.append(digit_str(n / 1000));
        s.append(digit_str((n / 100) % 10));
        s.append(digit_str((n / 10) % 10));
        s.append(digit_str(n % 10));
        assert(final(s)@ =~= old(s)@ + four_digits(n as nat));
    } else {
        push_decimal(s, n);
    }
}

impl Timestamp {
    /// The moment as text, the way `%Y-%m-%d %H:%M:%S` formats it.
    pub fn text(&self) -> (r: String)
        ensures
            r@ == timestamp_text(*self),
    {
        let mut s = String::new();
        if 0 <= self.year && self.year <= 9999 {
            push_four_digits(&mut s, self.year as u64);
        } else if self.year < 0 {
            s.append("-");
            push_four_digits(&mut s, (-(self.year as i64)) as u64);
        } else {
            s.append("+");
            push_four_digits(&mut s, self.year as u64);
        }
        s.append("-");
        push_two_digits(&mut s, self.month);
        s.append("-");
        push_two_digits(&mut s, self.day);
        s.append(" ");
        push_two_digits(&mut s, self.hour);
        s.append(":");
        push_two_digits(&mut s, self.minute);
        s.append(":");
        push_two_digits(&mut s, self.second);
        assert(s@ =~= timestamp_text(*self));
        s
    }
}

/// A known vault: its name and when it was last opened.
#[derive(Clone, Debug)]
pub struct User {
    pub name: String,
    pub last_accessed: String,
}

impl User {
    /// A vault identity last opened at `now`.
    pub fn accessed_at(name: String, now: &Timestamp) -> (r: User)
        ensures
            r.name@ == name@,
            r.last_accessed@ == timestamp_text(*now),
    {
        User { name, last_accessed: now.text() }
    }

    /// A vault identity stamped with the current local time.
    pub fn new(name: String) -> (r: User)
        ensures
            r.name@ == name@,
            exists|t: Timestamp| t.wf() && r.last_accessed@ == timestamp_text(t),
    {
        let now = local_now();
        User::accessed_at(name, &now)
    }
}

/// A name can stand as a file name for its vault: it is not empty, is not `.` or `..`,
/// and holds no path separator and no NUL.
pub open spec fn is_valid_vault_name(name: Seq<char>) -> bool {
    &&& name.len() > 0
    &&& name != seq!['.']
    &&& name != seq!['.', '.']
    &&& forall|i: int| 0 <= i < name.len() ==> #[trigger] name[i] != '/' && name[i] != '\\' && name[i] != '\0'
}

/// Checks a proposed vault name.
pub fn valid_vault_name(name: &str) -> (r: bool)
    ensures
        r == is_valid_vault_name(name@),
{
    let c = chars_of(name);
    if c.len() == 0 {
        return false;
    }
    if c.len() == 1 && c[0] == '.' {
        assert(name@ =~= seq!['.']);
        return false;
    }
    if c.len() == 2 && c[0] == '.' && c[1] == '.' {
        assert(name@ =~= seq!['.', '.']);
        return false;
    }
    assert(name@ != seq!['.'] && name@ != seq!['.', '.']) by {
        if name@ == seq!['.'] {
            assert(c@[0] == '.');
        }
        if name@ == seq!['.', '.'] {
            assert(c@[0] == '.' && c@[1] == '.');
        }
    }
    let mut i: usize = 0;
    while i < c.len()
        invariant
            c@ == name@,
            i <= c@.len(),
            forall|k: int| 0 <= k < i ==> #[trigger] c@[k] != '/' && c@[k] != '\\' && c@[k] != '\0',
        decreases c@.len() - i,
    {
        if c[i] == '/' || c[i] == '\\' || c[i] == '\0' {
            return false;
        }
        i = i + 1;
    }
    true
}

/// Some identity in `users` has this name.
pub open spec fn has_name(users: Seq<User>, name: Seq<char>) -> bool {
    exists|i: int| 0 <= i < users.len() && #[trigger] users[i].name@ == name
}

/// The first position of an identity with this name.
pub open spec fn first_with_name(users: Seq<User>, name: Seq<char>, i: int) -> bool {
    &&& 0 <= i < users.len()
    &&& users[i].name@ == name
    &&& forall|k: int| 0 <= k < i ==> #[trigger] users[k].name@ != name
}

/// `users` without the identities that have this name, in their order.
pub open spec fn without_name(users: Seq<User>, name: Seq<char>) -> Seq<User>
    decreases users.len(),
{
    if users.len() == 0 {
        users
    } else if users[0].name@ == name {
        without_name(users.drop_first(), name)
    } else {
        seq![users[0]] + without_name(users.drop_first(), name)
    }
}

/// `after` is `before` with the first identity of this name stamped with some valid
/// moment, and is `before` itself where no identity has the name.
pub open spec fn is_touched(before: Seq<User>, after: Seq<User>, name: Seq<char>) -> bool {
    &&& !has_name(before, name) ==> after == before
    &&& forall|i: int| first_with_name(before, name, i) ==> {
        &&& after.len() == before.len()
        &&& after[i].name@ == name
        &&& exists|t: Timestamp| t.wf() && after[i].last_accessed@ == timestamp_text(t)
        &&& forall|k: int| 0 <= k < before.len() && k != i ==> #[trigger] after[k] == before[k]
    }
}

/// What registering `user` does to the list of identities.
pub open spec fn add_user_result(users: Seq<User>, user: User) -> Result<Seq<User>, VaultError> {
    if !is_valid_vault_name(user.name@) {
        Err(VaultError::InvalidName)
    } else if has_name(users, user.name@) {
        Err(VaultError::DuplicateName)
    } else {
        Ok(users.push(user))
    }
}

/// The registry of known vaults, in order of registration.
pub struct Users {
    pub users: Vec<User>,
}

impl Users {
    /// An empty registry, as on first run.
    pub fn new() -> (r: Users)
        ensures
            r.users@.len() == 0,
    {
        Users { users: Vec::new() }
    }

    /// Whether a vault of this name is registered (exact, case-sensitive match).
    pub fn contains(&self, name: &str) -> (r: bool)
        ensures
            r == has_name(self.users@, name@),
    {
        self.position(name).is_some()
    }

    fn position(&self, name: &str) -> (r: Option<usize>)
        ensures
            r is Some ==> first_with_name(self.users@, name@, r->0 as int),
            r is None ==> !has_name(self.users@, name@),
    {
        let target = String::from_str(name);
        let mut i: usize = 0;
        while i < self.users.len()
            invariant
                target@ == name@,
                i <= self.users@.len(),
                forall|k: int| 0 <= k < i ==> #[trigger] self.users@[k].name@ != name@,
            decreases self.users@.len() - i,
        {
            if self.users[i].name == target {
                return Some(i);
            }
            i = i + 1;
        }
        None
    }

    /// Registers a vault identity. A name that cannot be a file name is refused with
    /// `InvalidName`, a name already present with `DuplicateName`; otherwise the identity
    /// is appended.
    pub fn add_user(&mut self, user: User) -> (r: Result<(), VaultError>)
        ensures
            match add_user_result(old(self).users@, user) {
                Ok(users) => r is Ok && final(self).users@ == users,
                Err(e) => r == Err::<(), VaultError>(e) && final(self).users@ == old(self).users@,
            },
    {
        if !valid_vault_name(user.name.as_str()) {
            return Err(VaultError::InvalidName);
        }
        if self.contains(user.name.as_str()) {
            return Err(VaultError::DuplicateName);
        }
        self.users.push(user);
        Ok(())
    }

    /// Registers a new vault stamped with the current local time.
    pub fn register_vault(&mut self, name: String) -> (r: Result<(), VaultError>)
        ensures
            r is Ok <==> is_valid_vault_name(name@) && !has_name(old(self).users@, name@),
            r is Ok ==> final(self).users@.len() == old(self).users@.len() + 1,
            r is Ok ==> final(self).users@.take(old(self).users@.len() as int) == old(self).users@,
            r is Ok ==> final(self).users@.last().name@ == name@,
            r is Ok ==> exists|t: Timestamp| t.wf() && final(self).users@.last().last_accessed@ == timestamp_text(t),
            r is Err ==> final(self).users@ == old(self).users@,
            !is_valid_vault_name(name@) ==> r == Err::<(), VaultError>(VaultError::InvalidName),
            is_valid_vault_name(name@) && has_name(old(self).users@, name@)
                ==> r == Err::<(), VaultError>(VaultError::DuplicateName),
    {
        let user = User::new(name);
        let r = self.add_user(user);
        proof {
            if r is Ok {
                assert(final(self).users@.take(old(self).users@.len() as int) =~= old(self).users@);
            }
        }
        r
    }

    /// Records that the first vault with this name was opened at `now`; does nothing
    /// where no vault has the name.
    pub fn touch_vault_at(&mut self, name: &str, now: &Timestamp)
        ensures
            !has_name(old(self).users@, name@) ==> final(self).users@ == old(self).users@,
            forall|i: int| first_with_name(old(self).users@, name@, i) ==> {
                &&& final(self).users@.len() == old(self).users@.len()
                &&& final(self).users@[i].name@ == name@
                &&& final(self).users@[i].last_accessed@ == timestamp_text(*now)
                &&& forall|k: int| 0 <= k < old(self).users@.len() && k != i
                    ==> #[trigger] final(self).users@[k] == old(self).users@[k]
            },
    {
        match self.position(name) {
            None => {},
            Some(i) => {
                let old_user = self.users.remove(i);
                let updated = User::accessed_at(old_user.name, now);
                self.users.insert(i, updated);
                proof {
                    assert forall|j: int| first_with_name(old(self).users@, name@, j) implies j == i by {
                        if j < i {
                            assert(old(self).users@[j].name@ != name@);
                        }
                        if j > i {
                            assert(old(self).users@[i as int].name@ != name@);
                        }
                    }
                }
            },
        }
    }

    /// Records that the first vault with this name was opened now.
    pub fn touch_vault(&mut self, name: &str)
        ensures
            is_touched(old(self).users@, final(self).users@, name@),
    {
        let now = local_now();
        self.touch_vault_at(name, &now);
    }

    /// Forgets every vault with this name. The vault file itself is left in place.
    pub fn remove_vault(&mut self, name: &str)
        ensures
            final(self).users@ == without_name(old(self).users@, name@),
    {
        let target = String::from_str(name);
        let ghost orig = self.users@;
        let mut i: usize = self.users.len();
        assert(orig.skip(i as int) =~= Seq::<User>::empty());
        assert(orig.take(i as int) =~= orig);
        while i > 0
            invariant
                target@ == name@,
                i <= orig.len(),
                self.users@ == orig.take(i as int) + without_name(orig.skip(i as int), name@),
            decreases i,
        {
            let ghost before = self.users@;
            let ghost rest = without_name(orig.skip(i as int), name@);
            i = i - 1;
            assert(orig.skip(i as int).drop_first() =~= orig.skip(i + 1));
            assert(orig.skip(i as int)[0] == orig[i as int]);
            assert(before[i as int] == orig[i as int]) by {
                assert(orig.take(i + 1)[i as int] == orig[i as int]);
            }
            if self.users[i].name == target {
                self.users.remove(i);
                assert(self.users@ =~= orig.take(i as int) + without_name(orig.skip(i as int), name@));
            } else {
                assert(orig.take(i + 1) =~= orig.take(i as int).push(orig[i as int]));
                assert(self.users@ =~= orig.take(i as int) + without_name(orig.skip(i as int), name@));
            }
        }
        assert(orig.take(0) =~= Seq::<User>::empty());
        assert(orig.skip(0) =~= orig);
        assert(self.users@ =~= without_name(orig, name@));
    }
}

/// The passphrase that seals the registry.
pub open spec fn registry_passphrase() -> Seq<char> {
    "very-secure-hardcoded-key"@
}

/// Builds the key that seals the registry. It is part of the program, so anyone holding
/// the program can read the registry: vault names and access times are obscured only.
pub fn registry_key() -> (r: &'static str)
    ensures
        r@ == registry_passphrase(),
        passphrase_fits(r@),
{
    let k = "very-secure-hardcoded-key";
    proof {
        reveal_strlit("very-secure-hardcoded-key");
        vstd::utf8::is_ascii_chars_encode_utf8(k@);
    }
    k
}

/// Seals a serialized registry under the built-in key.
pub fn seal_registry(payload: &[u8]) -> (r: Result<Vec<u8>, VaultError>)
    ensures
        r is Ok ==> is_container_of(r->Ok_0@, payload@, registry_passphrase()),
        r is Err ==> r == Err::<Vec<u8>, VaultError>(VaultError::RandomUnavailable)
            || (r == Err::<Vec<u8>, VaultError>(VaultError::PayloadTooLarge) && payload@.len() > MAX_SEAL_LEN),
{
    encrypt(payload, registry_key())
}

/// Opens a registry container sealed under the built-in key.
pub fn open_registry(container: &[u8]) -> (r: Result<Vec<u8>, VaultError>)
    ensures
        result_view(r) == decrypt_result(container@, registry_passphrase()),
{
    decrypt(container, registry_key())
}

/// A name registered once cannot be registered again: the second attempt is refused as a
/// duplicate and leaves the registry as the first one left it.
pub proof fn lemma_register_twice(users: Seq<User>, first: User, second: User)
    requires
        add_user_result(users, first) is Ok,
        second.name@ == first.name@,
    ensures
        add_user_result(add_user_result(users, first)->Ok_0, second)
            == Err::<Seq<User>, VaultError>(VaultError::DuplicateName),
{
    let after = users.push(first);
    assert(after[users.len() as int].name@ == second.name@);
}

/// Registering a valid name in an empty registry lists exactly that one identity.
pub proof fn lemma_register_into_empty(user: User)
    requires
        is_valid_vault_name(user.name@),
    ensures
        add_user_result(Seq::<User>::empty(), user) == Ok::<Seq<User>, VaultError>(seq![user]),
{
    assert(Seq::<User>::empty().push(user) =~= seq![user]);
}

} // verus!
