use password_manager::crypt::decrypt;
use password_manager::error::VaultError;
use password_manager::user::{
    open_registry, registry_key, seal_registry, valid_vault_name, Timestamp, User, Users,
};

fn at(year: i32, month: u32, day: u32, hour: u32, minute: u32, second: u32) -> Timestamp {
    Timestamp { year, month, day, hour, minute, second }
}

fn is_timestamp(s: &str) -> bool {
    let b = s.as_bytes();
    b.len() == 19
        && b.iter().enumerate().all(|(i, c)| match i {
            4 | 7 => *c == b'-',
            10 => *c == b' ',
            13 | 16 => *c == b':',
            _ => c.is_ascii_digit(),
        })
}

#[test]
fn timestamp_text_is_zero_padded() {
    assert_eq!(at(2024, 1, 2, 3, 4, 5).text(), "2024-01-02 03:04:05");
    assert_eq!(at(1999, 12, 31, 23, 59, 59).text(), "1999-12-31 23:59:59");
    assert_eq!(at(7, 6, 5, 0, 0, 0).text(), "0007-06-05 00:00:00");
}

#[test]
fn timestamp_text_of_far_years_has_a_sign() {
    assert_eq!(at(10000, 1, 1, 0, 0, 0).text(), "+10000-01-01 00:00:00");
    assert_eq!(at(-1, 1, 1, 0, 0, 0).text(), "-0001-01-01 00:00:00");
    assert_eq!(at(-12345, 1, 1, 0, 0, 0).text(), "-12345-01-01 00:00:00");
}

#[test]
fn register_twice_is_duplicate() {
    let mut users = Users::new();
    assert_eq!(users.register_vault("x".to_string()), Ok(()));
    assert_eq!(users.register_vault("x".to_string()), Err(VaultError::DuplicateName));
    assert_eq!(users.users.len(), 1);
    assert_eq!(users.users[0].name, "x");
    assert!(is_timestamp(&users.users[0].last_accessed));
}

#[test]
fn names_are_case_sensitive() {
    let mut users = Users::new();
    assert_eq!(users.register_vault("Alice".to_string()), Ok(()));
    assert_eq!(users.register_vault("alice".to_string()), Ok(()));
    assert!(users.contains("Alice"));
    assert!(users.contains("alice"));
    assert!(!users.contains("ALICE"));
}

#[test]
fn unusable_names_are_refused() {
    let mut users = Users::new();
    for bad in ["", ".", "..", "a/b", "..\\x", "nul\0"] {
        assert_eq!(users.register_vault(bad.to_string()), Err(VaultError::InvalidName), "{:?}", bad);
    }
    assert!(users.users.is_empty());
    assert!(valid_vault_name("my vault"));
    assert!(valid_vault_name("..."));
    assert!(valid_vault_name(".hidden"));
}

#[test]
fn add_user_appends_in_order() {
    let t = at(2024, 5, 6, 7, 8, 9);
    let mut users = Users::new();
    users.add_user(User::accessed_at("a".to_string(), &t)).unwrap();
    users.add_user(User::accessed_at("b".to_string(), &t)).unwrap();
    let names: Vec<&str> = users.users.iter().map(|u| u.name.as_str()).collect();
    assert_eq!(names, vec!["a", "b"]);
    assert_eq!(users.users[1].last_accessed, "2024-05-06 07:08:09");
}

#[test]
fn touch_updates_first_match_only() {
    let t0 = at(2020, 1, 1, 0, 0, 0);
    let t1 = at(2021, 2, 2, 2, 2, 2);
    let mut users = Users {
        users: vec![
            User::accessed_at("a".to_string(), &t0),
            User::accessed_at("b".to_string(), &t0),
            User::accessed_at("b".to_string(), &t0),
        ],
    };
    users.touch_vault_at("b", &t1);
    assert_eq!(users.users[0].last_accessed, "2020-01-01 00:00:00");
    assert_eq!(users.users[1].last_accessed, "2021-02-02 02:02:02");
    assert_eq!(users.users[2].last_accessed, "2020-01-01 00:00:00");
    users.touch_vault_at("zzz", &t1);
    assert_eq!(users.users.len(), 3);
    assert_eq!(users.users[0].last_accessed, "2020-01-01 00:00:00");
}

#[test]
fn touch_now_writes_a_timestamp() {
    let mut users = Users::new();
    users.add_user(User::accessed_at("a".to_string(), &at(2000, 1, 1, 0, 0, 0))).unwrap();
    users.touch_vault("a");
    assert!(is_timestamp(&users.users[0].last_accessed));
}

#[test]
fn remove_drops_every_match() {
    let t = at(2020, 1, 1, 0, 0, 0);
    let mut users = Users {
        users: vec![
            User::accessed_at("a".to_string(), &t),
            User::accessed_at("b".to_string(), &t),
            User::accessed_at("a".to_string(), &t),
            User::accessed_at("c".to_string(), &t),
        ],
    };
    users.remove_vault("a");
    let names: Vec<&str> = users.users.iter().map(|u| u.name.as_str()).collect();
    assert_eq!(names, vec!["b", "c"]);
    users.remove_vault("missing");
    assert_eq!(users.users.len(), 2);
}

#[test]
fn registry_round_trip_under_built_in_key() {
    let payload = b"[{\"name\":\"x\",\"last_accessed\":\"2024-01-02 03:04:05\"}]".to_vec();
    let c = seal_registry(&payload).unwrap();
    assert_eq!(open_registry(&c), Ok(payload.clone()));
    assert_eq!(decrypt(&c, registry_key()), Ok(payload));
    assert_eq!(registry_key(), "very-secure-hardcoded-key");
    assert_eq!(open_registry(&c[..10]), Err(VaultError::MalformedContainer));
}
