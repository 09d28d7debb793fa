use vnscript::character::{Character, CharacterError, SpriteSlot};
use vnscript::engine::{EndReason, PlaybackState, Status};

fn nayu() -> Character {
    Character::new(
        String::from("Nayu"),
        String::from("uniform"),
        String::from("normal"),
        String::from("A test character"),
        vec![
            String::from("normal"),
            String::from("happy"),
            String::from("sad"),
        ],
        vec![
            SpriteSlot {
                outfit: String::from("uniform"),
                emotion: String::from("normal"),
                image: 1,
            },
            SpriteSlot {
                outfit: String::from("uniform"),
                emotion: String::from("happy"),
                image: 2,
            },
        ],
    )
    .unwrap()
}

#[test]
fn fresh_engine_is_idle_and_polling_it_does_nothing() {
    let mut engine = PlaybackState::new();
    let mut characters: Vec<Character> = Vec::new();
    assert_eq!(engine.status(), Status::Idle);
    assert!(engine.poll(&mut characters).is_ok());
    assert_eq!(engine.status(), Status::Idle);
    assert_eq!(engine.cursor(), 0);
}

#[test]
fn background_transition_always_updates_the_background() {
    let mut engine = PlaybackState::new();
    let mut characters: Vec<Character> = Vec::new();
    engine.load_script("bg background=`forest`").unwrap();
    engine.poll(&mut characters).unwrap();
    assert_eq!(engine.background(), "forest");
    engine.load_script("bg background=`beach`\nbg background=`cafe`").unwrap();
    engine.poll(&mut characters).unwrap();
    assert_eq!(engine.background(), "cafe");
}

#[test]
fn plain_script_drains_fully_in_one_poll_in_order() {
    let mut engine = PlaybackState::new();
    let mut characters = vec![nayu()];
    engine
        .load_script("log msg=`one`\nbg background=`forest`\nset type=`emotion` character=`Nayu` emotion=`happy`\nlog msg=`two`")
        .unwrap();
    engine.poll(&mut characters).unwrap();
    assert_eq!(engine.status(), Status::Ended(EndReason::Exhausted));
    assert_eq!(engine.cursor(), 4);
    assert_eq!(engine.log(), &vec![String::from("one"), String::from("two")]);
    assert_eq!(characters[0].emotion, "happy");
    assert_eq!(characters[0].current_sprite, 2);
}

#[test]
fn polling_an_exhausted_engine_is_a_no_op() {
    let mut engine = PlaybackState::new();
    let mut characters: Vec<Character> = Vec::new();
    engine.load_script("log msg=`only`").unwrap();
    engine.poll(&mut characters).unwrap();
    assert_eq!(engine.status(), Status::Ended(EndReason::Exhausted));
    let cursor = engine.cursor();
    let background = engine.background().clone();
    let log = engine.log().clone();
    assert!(engine.poll(&mut characters).is_ok());
    assert_eq!(engine.status(), Status::Ended(EndReason::Exhausted));
    assert_eq!(engine.cursor(), cursor);
    assert_eq!(engine.background(), &background);
    assert_eq!(engine.log(), &log);
}

#[test]
fn say_blocks_until_advanced() {
    let mut engine = PlaybackState::new();
    let mut characters: Vec<Character> = Vec::new();
    engine
        .load_script("say character=`Nayu` msg=`Hello!`\nlog msg=`after`")
        .unwrap();
    engine.poll(&mut characters).unwrap();
    assert_eq!(engine.status(), Status::Blocked);
    let pending = engine.pending_say().clone().unwrap();
    assert_eq!(pending.0, "Nayu");
    assert_eq!(pending.1, "Hello!");
    assert!(engine.log().is_empty());
    // polling while blocked does nothing
    engine.poll(&mut characters).unwrap();
    assert_eq!(engine.status(), Status::Blocked);
    assert!(engine.log().is_empty());
    // the dismiss signal resumes draining from the next transition
    engine.advance();
    assert!(engine.pending_say().is_none());
    engine.poll(&mut characters).unwrap();
    assert_eq!(engine.status(), Status::Ended(EndReason::Exhausted));
    assert_eq!(engine.log(), &vec![String::from("after")]);
}

#[test]
fn end_transition_ends_playback_for_good() {
    let mut engine = PlaybackState::new();
    let mut characters: Vec<Character> = Vec::new();
    engine.load_script("log msg=`seen`\nend \nlog msg=`never`").unwrap();
    engine.poll(&mut characters).unwrap();
    assert_eq!(engine.status(), Status::Ended(EndReason::ScriptEnd));
    assert_eq!(engine.log(), &vec![String::from("seen")]);
    engine.advance();
    engine.poll(&mut characters).unwrap();
    assert_eq!(engine.status(), Status::Ended(EndReason::ScriptEnd));
    assert_eq!(engine.log(), &vec![String::from("seen")]);
}

#[test]
fn missing_sprite_surfaces_a_lookup_error() {
    let mut engine = PlaybackState::new();
    let mut characters = vec![nayu()];
    // "sad" is an allowed emotion but has no sprite in the uniform outfit
    engine
        .load_script("set type=`emotion` character=`Nayu` emotion=`sad`")
        .unwrap();
    let e = engine.poll(&mut characters).unwrap_err();
    assert_eq!(e.character, "Nayu");
    assert_eq!(e.emotion, "sad");
    // nothing changed on the failed transition
    assert_eq!(characters[0].emotion, "normal");
    assert_eq!(characters[0].current_sprite, 1);
    // the failing transition is consumed; polling again skips past it
    engine.poll(&mut characters).unwrap();
    assert_eq!(engine.status(), Status::Ended(EndReason::Exhausted));
}

#[test]
fn set_emotion_for_unknown_character_is_a_silent_no_op() {
    let mut engine = PlaybackState::new();
    let mut characters = vec![nayu()];
    engine
        .load_script("set type=`emotion` character=`Stranger` emotion=`happy`")
        .unwrap();
    engine.poll(&mut characters).unwrap();
    assert_eq!(engine.status(), Status::Ended(EndReason::Exhausted));
    assert_eq!(characters[0].emotion, "normal");
}

#[test]
fn compile_error_leaves_the_engine_untouched() {
    let mut engine = PlaybackState::new();
    let mut characters: Vec<Character> = Vec::new();
    engine.load_script("bg background=`forest`").unwrap();
    engine.poll(&mut characters).unwrap();
    assert!(engine.load_script("bogus ").is_err());
    assert_eq!(engine.background(), "forest");
    assert_eq!(engine.status(), Status::Ended(EndReason::Exhausted));
}

#[test]
fn recompilation_replaces_the_sequence_wholesale() {
    let mut engine = PlaybackState::new();
    let mut characters: Vec<Character> = Vec::new();
    engine.load_script("log msg=`old`").unwrap();
    engine.poll(&mut characters).unwrap();
    engine.load_script("log msg=`new`").unwrap();
    assert_eq!(engine.status(), Status::Running);
    assert_eq!(engine.cursor(), 0);
    assert!(engine.log().is_empty());
    engine.poll(&mut characters).unwrap();
    assert_eq!(engine.log(), &vec![String::from("new")]);
}

#[test]
fn character_defaults_must_name_an_allowed_emotion() {
    let e = Character::new(
        String::from("Nayu"),
        String::from("uniform"),
        String::from("angry"),
        String::new(),
        vec![String::from("normal")],
        Vec::new(),
    )
    .unwrap_err();
    assert!(matches!(e, CharacterError::UndefinedEmotion));
}

#[test]
fn character_defaults_must_resolve_to_a_sprite() {
    let e = Character::new(
        String::from("Nayu"),
        String::from("casual"),
        String::from("normal"),
        String::new(),
        vec![String::from("normal")],
        vec![SpriteSlot {
            outfit: String::from("uniform"),
            emotion: String::from("normal"),
            image: 7,
        }],
    )
    .unwrap_err();
    assert!(matches!(e, CharacterError::MissingSprite));
}
