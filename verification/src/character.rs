//! The character registry: per-character presentation facts, the
//! outfit/emotion sprite table, and their well-formedness.

use vstd::prelude::*;
use crate::grammar::{str_eq, spec_strings};

verus! {

/// One entry of a character's sprite table, at the specification level.
pub ghost struct SpecSpriteSlot {
    pub outfit: Seq<char>,
    pub emotion: Seq<char>,
    pub image: u64,
}

/// One entry of a character's sprite table: the image handle (assigned by
/// the host) that displays the given emotion in the given outfit.
#[derive(Debug)]
pub struct SpriteSlot {
    pub outfit: String,
    pub emotion: String,
    pub image: u64,
}

impl View for SpriteSlot {
    type V = SpecSpriteSlot;

    open spec fn view(&self) -> SpecSpriteSlot {
        SpecSpriteSlot { outfit: self.outfit@, emotion: self.emotion@, image: self.image }
    }
}

/// The image handle of the first table entry for the given outfit and
/// emotion, if any.
pub open spec fn spec_sprite_lookup(
    sprites: Seq<SpecSpriteSlot>,
    outfit: Seq<char>,
    emotion: Seq<char>,
) -> Option<u64>
    decreases sprites.len(),
{
    if sprites.len() == 0 {
        None
    } else if sprites.first().outfit == outfit && sprites.first().emotion == emotion {
        Some(sprites.first().image)
    } else {
        spec_sprite_lookup(sprites.drop_first(), outfit, emotion)
    }
}

/// Looks the (outfit, emotion) pair up in a sprite table, exactly as
/// [`spec_sprite_lookup`] says.
pub fn sprite_lookup(sprites: &Vec<SpriteSlot>, outfit: &str, emotion: &str) -> (r: Option<u64>)
    ensures
        match r {
            Some(im) => spec_sprite_lookup(
                sprites@.map_values(|s: SpriteSlot| s@),
                outfit@,
                emotion@,
            ) == Some(im),
            None => spec_sprite_lookup(
                sprites@.map_values(|s: SpriteSlot| s@),
                outfit@,
                emotion@,
            ) is None,
        },
{
    let ghost all = sprites@.map_values(|s: SpriteSlot| s@);
    let mut i: usize = 0;
    proof {
        assert(all.skip(0) =~= all);
    }
    while i < sprites.len()
        invariant
            i <= sprites.len(),
            all == sprites@.map_values(|s: SpriteSlot| s@),
            spec_sprite_lookup(all, outfit@, emotion@) == spec_sprite_lookup(
                all.skip(i as int),
                outfit@,
                emotion@,
            ),
        decreases sprites.len() - i,
    {
        if str_eq(sprites[i].outfit.as_str(), outfit) && str_eq(
            sprites[i].emotion.as_str(),
            emotion,
        ) {
            return Some(sprites[i].image);
        }
        proof {
            assert(all.skip(i as int).drop_first() =~= all.skip(i + 1 as int));
        }
        i += 1;
    }
    None
}

/// Whether a list of identifiers contains `x`.
pub fn contains_name(v: &Vec<String>, x: &str) -> (r: bool)
    ensures
        r == spec_strings(v@).contains(x@),
{
    let mut i: usize = 0;
    while i < v.len()
        invariant
            i <= v.len(),
            forall|j: int| 0 <= j < i ==> spec_strings(v@)[j] != x@,
        decreases v.len() - i,
    {
        if str_eq(v[i].as_str(), x) {
            proof {
                assert(spec_strings(v@)[i as int] == x@);
            }
            return true;
        }
        i += 1;
    }
    false
}

/// A character at the specification level.
pub ghost struct SpecCharacter {
    pub name: Seq<char>,
    pub outfit: Seq<char>,
    pub emotion: Seq<char>,
    pub description: Seq<char>,
    pub emotions: Seq<Seq<char>>,
    pub sprites: Seq<SpecSpriteSlot>,
    pub current_sprite: u64,
}

/// One character known to the engine: its presentation facts and its
/// sprite table, together with the handle of the sprite it currently
/// displays.
#[derive(Debug)]
pub struct Character {
    pub name: String,
    pub outfit: String,
    pub emotion: String,
    pub description: String,
    pub emotions: Vec<String>,
    pub sprites: Vec<SpriteSlot>,
    pub current_sprite: u64,
}

impl View for Character {
    type V = SpecCharacter;

    open spec fn view(&self) -> SpecCharacter {
        SpecCharacter {
            name: self.name@,
            outfit: self.outfit@,
            emotion: self.emotion@,
            description: self.description@,
            emotions: spec_strings(self.emotions@),
            sprites: self.sprites@.map_values(|s: SpriteSlot| s@),
            current_sprite: self.current_sprite,
        }
    }
}

/// A character's invariant: its current emotion is one of its allowed
/// emotions, the (outfit, emotion) pair resolves in its sprite table, and
/// the resolved handle is the one currently displayed.
pub open spec fn spec_char_wf(c: SpecCharacter) -> bool {
    c.emotions.contains(c.emotion) && spec_sprite_lookup(c.sprites, c.outfit, c.emotion) == Some(
        c.current_sprite,
    )
}

/// The view of a whole character registry.
pub open spec fn spec_chars(cs: Seq<Character>) -> Seq<SpecCharacter> {
    cs.map_values(|c: Character| c@)
}

/// A failed sprite resolution at apply time, at the specification level.
pub ghost struct SpecLookupError {
    pub character: Seq<char>,
    pub emotion: Seq<char>,
}

/// A failed sprite resolution at apply time: some character with the
/// given name cannot display the given emotion. Surfaced as a recoverable
/// error so that the host can decide whether to skip or abort.
#[derive(Debug)]
pub struct LookupError {
    pub character: String,
    pub emotion: String,
}

impl View for LookupError {
    type V = SpecLookupError;

    open spec fn view(&self) -> SpecLookupError {
        SpecLookupError { character: self.character@, emotion: self.emotion@ }
    }
}

/// Whether every character named `name` may switch to `emo`: the emotion
/// is among its allowed emotions and has a sprite in its current outfit.
/// A name that matches no character makes this trivially true: such a
/// set-emotion is a silent no-op, as documented.
pub open spec fn spec_set_emotion_ok(cs: Seq<SpecCharacter>, name: Seq<char>, emo: Seq<char>) -> bool {
    forall|i: int| #![auto]
        0 <= i < cs.len() && cs[i].name == name ==> cs[i].emotions.contains(emo)
            && spec_sprite_lookup(cs[i].sprites, cs[i].outfit, emo) is Some
}

/// One character after a set-emotion: a matching name takes the new
/// emotion and the sprite it resolves to; everything else is unchanged.
pub open spec fn spec_update_char(c: SpecCharacter, name: Seq<char>, emo: Seq<char>) -> SpecCharacter {
    if c.name == name {
        match spec_sprite_lookup(c.sprites, c.outfit, emo) {
            Some(im) => SpecCharacter { emotion: emo, current_sprite: im, ..c },
            None => c,
        }
    } else {
        c
    }
}

/// The whole registry after a set-emotion.
pub open spec fn spec_set_emotion(cs: Seq<SpecCharacter>, name: Seq<char>, emo: Seq<char>) -> Seq<
    SpecCharacter,
> {
    cs.map_values(|c: SpecCharacter| spec_update_char(c, name, emo))
}

/// A set-emotion never touches a character's name, outfit, allowed
/// emotions or sprite table.
pub proof fn lemma_set_emotion_preserves_static(cs: Seq<SpecCharacter>, name: Seq<char>, emo: Seq<char>)
    ensures
        spec_set_emotion(cs, name, emo).len() == cs.len(),
        forall|i: int| #![auto]
            0 <= i < cs.len() ==> spec_set_emotion(cs, name, emo)[i].name == cs[i].name
                && spec_set_emotion(cs, name, emo)[i].outfit == cs[i].outfit && spec_set_emotion(
                cs,
                name,
                emo,
            )[i].emotions == cs[i].emotions && spec_set_emotion(cs, name, emo)[i].sprites
                == cs[i].sprites,
{
}

/// The registry invariant is preserved: a set-emotion that is allowed to
/// apply keeps every character well-formed — the new emotion is among the
/// allowed ones, and the sprite it resolves to becomes the displayed one.
pub proof fn lemma_set_emotion_preserves_wf(cs: Seq<SpecCharacter>, name: Seq<char>, emo: Seq<char>)
    requires
        spec_set_emotion_ok(cs, name, emo),
        forall|i: int| 0 <= i < cs.len() ==> spec_char_wf(#[trigger] cs[i]),
    ensures
        forall|i: int|
            0 <= i < cs.len() ==> spec_char_wf(#[trigger] spec_set_emotion(cs, name, emo)[i]),
{
    assert forall|i: int| 0 <= i < cs.len() implies spec_char_wf(
        #[trigger] spec_set_emotion(cs, name, emo)[i],
    ) by {
        assert(spec_char_wf(cs[i]));
        assert(spec_set_emotion(cs, name, emo)[i] == spec_update_char(cs[i], name, emo));
    }
}

/// Applies a set-emotion to every character named `name`, transactionally:
/// either every matching character can display `emo` and they all switch,
/// or nothing changes and the lookup error is returned. A name matching
/// no character at all is a silent no-op.
#[verifier::loop_isolation(false)]
pub fn apply_set_emotion(characters: &mut Vec<Character>, name: &str, emo: &str) -> (r: Result<
    (),
    LookupError,
>)
    ensures
        match r {
            Ok(()) => spec_set_emotion_ok(spec_chars(old(characters)@), name@, emo@) && spec_chars(
                final(characters)@,
            ) == spec_set_emotion(spec_chars(old(characters)@), name@, emo@),
            Err(e) => !spec_set_emotion_ok(spec_chars(old(characters)@), name@, emo@)
                && final(characters)@ == old(characters)@ && e@ == (SpecLookupError {
                character: name@,
                emotion: emo@,
            }),
        },
{
    let ghost cs0 = spec_chars(characters@);
    let n = characters.len();
    let mut i: usize = 0;
    while i < n
        invariant
            i <= n,
            forall|j: int| #![auto]
                0 <= j < i && cs0[j].name == name@ ==> cs0[j].emotions.contains(emo@)
                    && spec_sprite_lookup(cs0[j].sprites, cs0[j].outfit, emo@) is Some,
        decreases n - i,
    {
        proof {
            assert(cs0[i as int] == characters@[i as int]@);
        }
        if str_eq(characters[i].name.as_str(), name) {
            let allowed = contains_name(&characters[i].emotions, emo);
            let slot = sprite_lookup(&characters[i].sprites, characters[i].outfit.as_str(), emo);
            if !allowed || slot.is_none() {
                proof {
                    assert(cs0[i as int].name == name@);
                    assert(!(cs0[i as int].emotions.contains(emo@) && spec_sprite_lookup(
                        cs0[i as int].sprites,
                        cs0[i as int].outfit,
                        emo@,
                    ) is Some));
                    assert(!spec_set_emotion_ok(cs0, name@, emo@));
                }
                return Err(LookupError { character: name.to_owned(), emotion: emo.to_owned() });
            }
        }
        i += 1;
    }
    assert(spec_set_emotion_ok(cs0, name@, emo@));
    let mut i: usize = 0;
    while i < n
        invariant
            i <= n,
            characters@.len() == n,
            forall|j: int| i <= j < n ==> characters@[j] == #[trigger] old(characters)@[j],
            forall|j: int| #![auto]
                0 <= j < i ==> characters@[j]@ == spec_update_char(cs0[j], name@, emo@),
        decreases n - i,
    {
        proof {
            assert(characters@[i as int] == old(characters)@[i as int]);
            assert(cs0[i as int] == characters@[i as int]@);
        }
        if str_eq(characters[i].name.as_str(), name) {
            match sprite_lookup(&characters[i].sprites, characters[i].outfit.as_str(), emo) {
                Some(im) => {
                    characters[i].emotion = emo.to_owned();
                    characters[i].current_sprite = im;
                    proof {
                        assert(characters@[i as int]@ == spec_update_char(
                            cs0[i as int],
                            name@,
                            emo@,
                        ));
                    }
                },
                None => {
                    proof {
                        assert(cs0[i as int].name == name@);
                        assert(spec_sprite_lookup(
                            cs0[i as int].sprites,
                            cs0[i as int].outfit,
                            emo@,
                        ) is Some);
                        assert(false);
                    }
                },
            }
        } else {
            proof {
                assert(characters@[i as int]@ == spec_update_char(cs0[i as int], name@, emo@));
            }
        }
        i += 1;
    }
    proof {
        assert(spec_chars(characters@) =~= spec_set_emotion(cs0, name@, emo@));
    }
    Ok(())
}

/// Why a character record could not be built.
#[derive(Debug)]
pub enum CharacterError {
    /// The character document is not well-formed.
    MalformedDocument,
    /// The named field is absent or not a string.
    MissingField(String),
    /// The default emotion is not among the allowed emotions.
    UndefinedEmotion,
    /// The (default outfit, default emotion) pair has no sprite.
    MissingSprite,
}

impl Character {
    /// Builds a well-formed character from its fields, validating the
    /// invariant: the defaults must name an allowed emotion that has a
    /// sprite in the default outfit. Succeeds exactly on valid defaults.
    pub fn new(
        name: String,
        outfit: String,
        emotion: String,
        description: String,
        emotions: Vec<String>,
        sprites: Vec<SpriteSlot>,
    ) -> (r: Result<Character, CharacterError>)
        ensures
            match r {
                Ok(c) => spec_char_wf(c@) && c@.name == name@ && c@.outfit == outfit@ && c@.emotion
                    == emotion@ && c@.description == description@ && c@.emotions == spec_strings(
                    emotions@,
                ) && c@.sprites == sprites@.map_values(|s: SpriteSlot| s@),
                Err(CharacterError::UndefinedEmotion) => !spec_strings(emotions@).contains(emotion@),
                Err(CharacterError::MissingSprite) => spec_strings(emotions@).contains(emotion@)
                    && spec_sprite_lookup(
                    sprites@.map_values(|s: SpriteSlot| s@),
                    outfit@,
                    emotion@,
                ) is None,
                Err(_) => false,
            },
    {
        if !contains_name(&emotions, emotion.as_str()) {
            return Err(CharacterError::UndefinedEmotion);
        }
        match sprite_lookup(&sprites, outfit.as_str(), emotion.as_str()) {
            None => Err(CharacterError::MissingSprite),
            Some(im) => Ok(
                Character {
                    name,
                    outfit,
                    emotion,
                    description,
                    emotions,
                    sprites,
                    current_sprite: im,
                },
            ),
        }
    }
}

} // verus!
