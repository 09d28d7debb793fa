use vnscript::character::{CharacterError, SpriteSlot};
use vnscript::import::import_character;

fn nayu_sprites() -> Vec<SpriteSlot> {
    vec![
        SpriteSlot {
            outfit: String::from("uniform"),
            emotion: String::from("normal"),
            image: 10,
        },
        SpriteSlot {
            outfit: String::from("uniform"),
            emotion: String::from("happy"),
            image: 11,
        },
    ]
}

const NAYU_DOC: &str = r#"{
    "name": "Nayu",
    "default_outfit": "uniform",
    "default_emotion": "normal",
    "description": "A cheerful student",
    "emotions": ["normal", "happy"]
}"#;

#[test]
fn a_valid_document_builds_a_well_formed_character() {
    let c = import_character(NAYU_DOC, nayu_sprites()).unwrap();
    assert_eq!(c.name, "Nayu");
    assert_eq!(c.outfit, "uniform");
    assert_eq!(c.emotion, "normal");
    assert_eq!(c.description, "A cheerful student");
    assert_eq!(c.emotions, vec![String::from("normal"), String::from("happy")]);
    assert_eq!(c.current_sprite, 10);
}

#[test]
fn malformed_json_is_rejected() {
    let e = import_character("{ not json", nayu_sprites()).unwrap_err();
    assert!(matches!(e, CharacterError::MalformedDocument));
}

#[test]
fn a_missing_field_is_named() {
    let doc = r#"{"name": "Nayu", "default_emotion": "normal", "description": "", "emotions": ["normal"]}"#;
    let e = import_character(doc, nayu_sprites()).unwrap_err();
    assert!(matches!(e, CharacterError::MissingField(f) if f == "default_outfit"));
}

#[test]
fn a_non_string_field_is_rejected() {
    let doc = r#"{"name": 3, "default_outfit": "uniform", "default_emotion": "normal", "description": "", "emotions": ["normal"]}"#;
    let e = import_character(doc, nayu_sprites()).unwrap_err();
    assert!(matches!(e, CharacterError::MissingField(f) if f == "name"));
}

#[test]
fn the_first_missing_field_in_order_is_named() {
    let doc = r#"{"default_emotion": "normal", "description": "", "emotions": ["normal"]}"#;
    let e = import_character(doc, nayu_sprites()).unwrap_err();
    assert!(matches!(e, CharacterError::MissingField(f) if f == "name"));
}

#[test]
fn a_non_string_emotion_entry_is_rejected() {
    let doc = r#"{"name": "Nayu", "default_outfit": "uniform", "default_emotion": "normal", "description": "", "emotions": ["normal", 5]}"#;
    let e = import_character(doc, nayu_sprites()).unwrap_err();
    assert!(matches!(e, CharacterError::MissingField(f) if f == "emotions"));
}

#[test]
fn a_default_emotion_outside_the_list_is_rejected() {
    let doc = r#"{
        "name": "Nayu",
        "default_outfit": "uniform",
        "default_emotion": "angry",
        "description": "",
        "emotions": ["normal", "happy"]
    }"#;
    let e = import_character(doc, nayu_sprites()).unwrap_err();
    assert!(matches!(e, CharacterError::UndefinedEmotion));
}

#[test]
fn a_default_without_a_sprite_is_rejected() {
    let e = import_character(NAYU_DOC, Vec::new()).unwrap_err();
    assert!(matches!(e, CharacterError::MissingSprite));
}
