//! The icon shown beside an entry, picked from keywords in its service name.
use crate::text::{chars_of, contains_chars, has_substring};
use vstd::prelude::*;

verus! {

/// The lower-case form of a string, as `str::to_lowercase` computes it.
pub uninterp spec fn lower_of(s: Seq<char>) -> Seq<char>;

/// Relies on `str::to_lowercase`: the lower-case mapping of each character, which
/// depends on the characters alone.
#[verifier::external_body]
fn lowercase(s: &str) -> (r: String)
    ensures
        r@ == lower_of(s@),
{
    s.to_lowercase()
}

/// The icon for a service name that is already in lower case; the first keyword that
/// occurs decides.
pub open spec fn icon_for(s: Seq<char>) -> Seq<char> {
    if has_substring(s, "google"@) {
        "🌐"@
    } else if has_substring(s, "facebook"@) || has_substring(s, "meta"@) {
        "👤"@
    } else if has_substring(s, "apple"@) {
        "🍎"@
    } else if has_substring(s, "amazon"@) {
        "📦"@
    } else if has_substring(s, "microsoft"@) {
        "🪟"@
    } else if has_substring(s, "twitter"@) || has_substring(s, "x"@) {
        "🐦"@
    } else if has_substring(s, "github"@) {
        "🐙"@
    } else if has_substring(s, "netflix"@) {
        "🎬"@
    } else if has_substring(s, "spotify"@) {
        "🎵"@
    } else {
        "🔑"@
    }
}

/// The icon for a service name that is already in lower case.
pub fn icon_for_lowered(s: &str) -> (r: &'static str)
    ensures
        r@ == icon_for(s@),
{
    let c = chars_of(s);
    if contains_chars(&c, "google") {
        "🌐"
    } else if contains_chars(&c, "facebook") || contains_chars(&c, "meta") {
        "👤"
    } else if contains_chars(&c, "apple") {
        "🍎"
    } else if contains_chars(&c, "amazon") {
        "📦"
    } else if contains_chars(&c, "microsoft") {
        "🪟"
    } else if contains_chars(&c, "twitter") || contains_chars(&c, "x") {
        "🐦"
    } else if contains_chars(&c, "github") {
        "🐙"
    } else if contains_chars(&c, "netflix") {
        "🎬"
    } else if contains_chars(&c, "spotify") {
        "🎵"
    } else {
        "🔑"
    }
}

/// The icon for a service name, matched without regard to case.
pub fn get_service_icon(service: &str) -> (r: &'static str)
    ensures
        r@ == icon_for(lower_of(service@)),
{
    let lowered = lowercase(service);
    icon_for_lowered(lowered.as_str())
}

} // verus!
