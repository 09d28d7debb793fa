//! Importing a character from its definition document: a JSON record with
//! the fields `name`, `default_outfit`, `default_emotion`, `description`
//! and `emotions` (a list of allowed emotion identifiers).
//!
//! The document is read by the `json` crate behind trusted wrappers from
//! text to plain values. What a field of a given document holds is a
//! function of the text alone, so each wrapper's result is given a name
//! (`spec_doc_parses`, `spec_doc_field`, `spec_doc_emotions`), and the
//! verified import states exactly, over those names, when it succeeds,
//! which record it builds, and which error each failing document earns.

use vstd::prelude::*;
use crate::character::{Character, CharacterError, SpriteSlot, spec_char_wf, spec_sprite_lookup};
use crate::grammar::spec_strings;

verus! {

/// Whether the parser accepts the text as a JSON document.
pub uninterp spec fn spec_doc_parses(text: Seq<char>) -> bool;

/// The string member under `key` of the document's top-level object:
/// `None` when the text does not parse, the key is absent, or the member
/// is not a string.
pub uninterp spec fn spec_doc_field(text: Seq<char>, key: Seq<char>) -> Option<Seq<char>>;

/// The members of the document's `emotions` list, in order: an absent key
/// or a non-list member gives the empty sequence; `None` when the text
/// does not parse or some member is not a string.
pub uninterp spec fn spec_doc_emotions(text: Seq<char>) -> Option<Seq<Seq<char>>>;

/// Relies on json::parse: a function of the text alone that returns
/// every failure as an error, never panicking.
#[verifier::external_body]
fn doc_parses(text: &str) -> (b: bool)
    ensures
        b == spec_doc_parses(text@),
{
    json::parse(text).is_ok()
}

/// Relies on json::parse, the `Index<&str>` impl of json::JsonValue
/// (the null value for a missing key or a non-object) and
/// json::JsonValue::as_str (`Some` exactly for string values): the string
/// member of the document under `key`, as a function of the text alone.
#[verifier::external_body]
fn doc_string_field(text: &str, key: &str) -> (r: Option<String>)
    ensures
        match r {
            Some(s) => spec_doc_field(text@, key@) == Some(s@),
            None => spec_doc_field(text@, key@) is None,
        },
{
    match json::parse(text) {
        Ok(doc) => doc[key].as_str().map(|s| s.to_owned()),
        Err(_) => None,
    }
}

/// Relies on json::parse, the `Index<&str>` impl of json::JsonValue and
/// json::JsonValue::members (an empty iterator for a missing key or a
/// non-array) with json::JsonValue::as_str: the string members of the
/// document's `emotions` list, as a function of the text alone.
#[verifier::external_body]
fn doc_emotions(text: &str) -> (r: Option<Vec<String>>)
    ensures
        match r {
            Some(v) => spec_doc_emotions(text@) == Some(spec_strings(v@)),
            None => spec_doc_emotions(text@) is None,
        },
{
    match json::parse(text) {
        Ok(doc) => {
            let mut out: Vec<String> = Vec::new();
            for member in doc["emotions"].members() {
                match member.as_str() {
                    Some(s) => out.push(s.to_owned()),
                    None => return None,
                }
            }
            Some(out)
        },
        Err(_) => None,
    }
}

/// Builds a character from its JSON definition document and the sprite
/// table the host indexed for it. Succeeds exactly on a document that
/// parses, holds all five fields, and whose default emotion is among the
/// allowed emotions with a sprite in the default outfit; the record then
/// carries the document's fields verbatim and is well-formed. Each
/// failing document earns the error of the first thing wrong with it, in
/// field order.
pub fn import_character(text: &str, sprites: Vec<SpriteSlot>) -> (r: Result<
    Character,
    CharacterError,
>)
    ensures
        ({
            let parses = spec_doc_parses(text@);
            let name = spec_doc_field(text@, "name"@);
            let outfit = spec_doc_field(text@, "default_outfit"@);
            let emotion = spec_doc_field(text@, "default_emotion"@);
            let description = spec_doc_field(text@, "description"@);
            let emotions = spec_doc_emotions(text@);
            match r {
                Ok(c) => parses && name is Some && outfit is Some && emotion is Some
                    && description is Some && emotions is Some && c@.name == name->Some_0
                    && c@.outfit == outfit->Some_0 && c@.emotion == emotion->Some_0
                    && c@.description == description->Some_0 && c@.emotions == emotions->Some_0
                    && c@.sprites == sprites@.map_values(|s: SpriteSlot| s@) && spec_char_wf(c@),
                Err(CharacterError::MalformedDocument) => !parses,
                Err(CharacterError::MissingField(f)) => parses && ((f@ == "name"@ && name is None)
                    || (f@ == "default_outfit"@ && name is Some && outfit is None) || (f@
                    == "default_emotion"@ && name is Some && outfit is Some && emotion is None) || (
                f@ == "description"@ && name is Some && outfit is Some && emotion is Some
                    && description is None) || (f@ == "emotions"@ && name is Some && outfit is Some
                    && emotion is Some && description is Some && emotions is None)),
                Err(CharacterError::UndefinedEmotion) => parses && name is Some && outfit is Some
                    && emotion is Some && description is Some && emotions is Some && !emotions
                    ->Some_0.contains(emotion->Some_0),
                Err(CharacterError::MissingSprite) => parses && name is Some && outfit is Some
                    && emotion is Some && description is Some && emotions is Some && emotions
                    ->Some_0.contains(emotion->Some_0) && spec_sprite_lookup(
                    sprites@.map_values(|s: SpriteSlot| s@),
                    outfit->Some_0,
                    emotion->Some_0,
                ) is None,
            }
        }),
{
    if !doc_parses(text) {
        return Err(CharacterError::MalformedDocument);
    }
    let name = match doc_string_field(text, "name") {
        Some(s) => s,
        None => {
            return Err(CharacterError::MissingField(String::from_str("name")));
        },
    };
    let outfit = match doc_string_field(text, "default_outfit") {
        Some(s) => s,
        None => {
            return Err(CharacterError::MissingField(String::from_str("default_outfit")));
        },
    };
    let emotion = match doc_string_field(text, "default_emotion") {
        Some(s) => s,
        None => {
            return Err(CharacterError::MissingField(String::from_str("default_emotion")));
        },
    };
    let description = match doc_string_field(text, "description") {
        Some(s) => s,
        None => {
            return Err(CharacterError::MissingField(String::from_str("description")));
        },
    };
    let emotions = match doc_emotions(text) {
        Some(v) => v,
        None => {
            return Err(CharacterError::MissingField(String::from_str("emotions")));
        },
    };
    Character::new(name, outfit, emotion, description, emotions, sprites)
}

} // verus!
