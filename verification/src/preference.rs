//! The display preference: whether the main window starts fullscreen.

use crate::document::{json_view, member, text, Json};
use crate::text::same_text;
use serde_json::Value;
use vstd::prelude::*;

verus! {

/// Key of the settings document in the store.
pub const SETTINGS_KEY: &'static str = "settings";

/// Field of the settings document that holds the screen size.
pub const SCREEN_SIZE_FIELD: &'static str = "screenSize";

/// The one screen size that asks for a fullscreen window.
pub const FULLSCREEN: &'static str = "fullscreen";

/// A screen size asks for fullscreen exactly when it is present and reads
/// `fullscreen`, character for character.
pub open spec fn asks_for_fullscreen(screen_size: Option<Seq<char>>) -> bool {
    screen_size == Some("fullscreen"@)
}

/// Only the ten characters `fullscreen`, in lower case and with nothing
/// before or after them, ask for fullscreen; no screen size at all does not.
pub proof fn law_only_exact_spelling(screen_size: Option<Seq<char>>)
    ensures
        asks_for_fullscreen(screen_size) <==> screen_size == Some(
            seq!['f', 'u', 'l', 'l', 's', 'c', 'r', 'e', 'e', 'n'],
        ),
{
    reveal_strlit("fullscreen");
    assert("fullscreen"@ =~= seq!['f', 'u', 'l', 'l', 's', 'c', 'r', 'e', 'e', 'n']);
}

/// The screen size that a settings document states: the characters of its
/// `screenSize` member. There is none where the document is absent, is no
/// object, has no such member, or the member is no string.
pub open spec fn screen_size_in(document: Option<Json>) -> Option<Seq<char>> {
    match document {
        Some(settings) => match settings.member("screenSize"@) {
            Some(size) => size.text(),
            None => None,
        },
        None => None,
    }
}

/// What a document from the store holds, if there is one.
pub open spec fn document_view(document: Option<Value>) -> Option<Json> {
    match document {
        Some(settings) => Some(json_view(settings)),
        None => None,
    }
}

/// The screen size that a document from the store states.
pub open spec fn screen_size_of(document: Option<Value>) -> Option<Seq<char>> {
    screen_size_in(document_view(document))
}

/// A document asks for fullscreen exactly when it is an object whose
/// `screenSize` member is the string `fullscreen`. An absent document, one
/// that is no object, a missing member, a member of another kind and any
/// other string all resolve to windowed.
pub proof fn law_fullscreen_only_by_exact_string(document: Option<Json>)
    ensures
        asks_for_fullscreen(screen_size_in(document)) <==> (document matches Some(
            Json::Object(members),
        ) && members.contains_key("screenSize"@) && members["screenSize"@] == Json::Text(
            "fullscreen"@,
        )),
{
}

/// The display preference that a document from the store resolves to.
pub open spec fn fullscreen_preference(document: Option<Value>) -> bool {
    asks_for_fullscreen(screen_size_of(document))
}

/// Decides the display preference from the screen size read out of the
/// settings, if any was found there.
pub fn preference_for(screen_size: Option<&str>) -> (fullscreen: bool)
    ensures
        fullscreen == asks_for_fullscreen(
            match screen_size {
                Some(size) => Some(size@),
                None => None,
            },
        ),
{
    match screen_size {
        Some(size) => same_text(size, FULLSCREEN),
        None => false,
    }
}

/// Reads the screen size out of a settings document.
pub fn screen_size<'a>(document: &'a Option<Value>) -> (found: Option<&'a str>)
    ensures
        match found {
            Some(size) => screen_size_of(*document) == Some(size@),
            None => screen_size_of(*document) is None,
        },
{
    match document {
        Some(settings) => match member(settings, SCREEN_SIZE_FIELD) {
            Some(size) => text(size),
            None => None,
        },
        None => None,
    }
}

/// Resolves the display preference of a settings document: `true` exactly
/// when the document is present and its `screenSize` member is the string
/// `fullscreen`; `false` for an absent document, a missing member, a member
/// that is no string, and any other string.
pub fn resolve_fullscreen(document: &Option<Value>) -> (fullscreen: bool)
    ensures
        fullscreen == fullscreen_preference(*document),
{
    preference_for(screen_size(document))
}

} // verus!
