use password_manager::icon::{get_service_icon, icon_for_lowered};
use password_manager::text::{chars_of, contains_chars};

#[test]
fn icons_follow_keywords() {
    assert_eq!(get_service_icon("Google Drive"), "🌐");
    assert_eq!(get_service_icon("facebook"), "👤");
    assert_eq!(get_service_icon("Meta Quest"), "👤");
    assert_eq!(get_service_icon("Apple ID"), "🍎");
    assert_eq!(get_service_icon("amazon"), "📦");
    assert_eq!(get_service_icon("Microsoft"), "🪟");
    assert_eq!(get_service_icon("Twitter"), "🐦");
    assert_eq!(get_service_icon("Spotify"), "🎵");
    assert_eq!(get_service_icon("Bank"), "🔑");
    assert_eq!(get_service_icon(""), "🔑");
}

#[test]
fn first_keyword_wins() {
    // "x" is checked before "github" and "netflix"
    assert_eq!(get_service_icon("Netflix"), "🐦");
    assert_eq!(get_service_icon("Dropbox"), "🐦");
    assert_eq!(get_service_icon("GitHub"), "🐙");
    assert_eq!(get_service_icon("google apple"), "🌐");
}

#[test]
fn matching_ignores_case_only_through_lowering() {
    assert_eq!(icon_for_lowered("GOOGLE"), "🔑");
    assert_eq!(get_service_icon("GOOGLE"), "🌐");
    assert_eq!(icon_for_lowered("github"), "🐙");
    assert_eq!(get_service_icon("GITHUB"), "🐙");
}

#[test]
fn substring_search() {
    let hay = chars_of("password");
    assert_eq!(hay.len(), 8);
    assert!(contains_chars(&hay, "ssw"));
    assert!(contains_chars(&hay, ""));
    assert!(contains_chars(&hay, "password"));
    assert!(!contains_chars(&hay, "passwords"));
    assert!(!contains_chars(&hay, "wsp"));
}
