//! The execution engine: an ordered sequence of compiled transitions, a
//! monotone cursor, and a polled drain loop over the presentation state.
//!
//! The engine is polled, never pushed: each poll applies transitions in
//! file order until the sequence is exhausted, a transition blocks, or a
//! lookup fails. "Blocking" is a logical state — the poll itself always
//! returns promptly.

use vstd::prelude::*;
use crate::character::{
    Character, SpecCharacter, LookupError, SpecLookupError, spec_chars, spec_set_emotion,
    spec_set_emotion_ok, apply_set_emotion, lemma_set_emotion_preserves_static,
    spec_sprite_lookup,
};
use crate::compiler::{compile_script, spec_compile_script};
use crate::transition::{Transition, SpecTransition, CompileError, SpecCompileError, spec_transitions};
use crate::grammar::spec_strings;

verus! {

/// How playback came to its end.
#[derive(Clone, Copy, PartialEq, Eq, Structural, Debug)]
pub enum EndReason {
    /// An explicit end instruction was applied: playback is over for good.
    ScriptEnd,
    /// The sequence ran out with no explicit end instruction.
    Exhausted,
}

/// The engine's state machine.
#[derive(Clone, Copy, PartialEq, Eq, Structural, Debug)]
pub enum Status {
    /// No compiled script has been loaded yet.
    Idle,
    /// A script is loaded and transitions are drained on each poll.
    Running,
    /// A dialogue line is on display; draining waits for [`PlaybackState::advance`].
    Blocked,
    /// Terminal: no further transition will ever apply.
    Ended(EndReason),
}

/// Everything a transition may touch apart from the script itself: the
/// presentation facts and the observation log.
pub ghost struct SpecStage {
    pub status: Status,
    pub background: Seq<char>,
    pub pending_say: Option<(Seq<char>, Seq<char>)>,
    pub log: Seq<Seq<char>>,
}

/// The whole playback state, at the specification level.
pub ghost struct SpecPlayback {
    pub transitions: Seq<SpecTransition>,
    pub cursor: int,
    pub stage: SpecStage,
}

/// The playback state: the compiled transition sequence (replaced
/// wholesale on each compile pass), the cursor of the next unconsumed
/// transition, the engine status, and the presentation facts the host
/// renderer observes between polls.
#[derive(Debug)]
pub struct PlaybackState {
    transitions: Vec<Transition>,
    cursor: usize,
    status: Status,
    current_background: String,
    pending_say: Option<(String, String)>,
    log: Vec<String>,
}

impl View for PlaybackState {
    type V = SpecPlayback;

    closed spec fn view(&self) -> SpecPlayback {
        SpecPlayback {
            transitions: spec_transitions(self.transitions@),
            cursor: self.cursor as int,
            stage: SpecStage {
                status: self.status,
                background: self.current_background@,
                pending_say: match self.pending_say {
                    Some((c, m)) => Some((c@, m@)),
                    None => None,
                },
                log: spec_strings(self.log@),
            },
        }
    }
}

/// What applying one transition does. A background sets the background
/// and always succeeds; a log appends its message to the observation log;
/// a say blocks and leaves the dialogue for the host to display; an end
/// moves to the terminal state; a set-emotion updates every matching
/// character, or fails with a lookup error and changes nothing.
pub open spec fn spec_apply(t: SpecTransition, st: SpecStage, cs: Seq<SpecCharacter>) -> (
    SpecStage,
    Seq<SpecCharacter>,
    Result<(), SpecLookupError>,
) {
    match t {
        SpecTransition::Background(id) => (
            SpecStage { background: id, ..st },
            cs,
            Ok(()),
        ),
        SpecTransition::Log(m) => (SpecStage { log: st.log.push(m), ..st }, cs, Ok(())),
        SpecTransition::Say(c, m) => (
            SpecStage { status: Status::Blocked, pending_say: Some((c, m)), ..st },
            cs,
            Ok(()),
        ),
        SpecTransition::End => (
            SpecStage { status: Status::Ended(EndReason::ScriptEnd), ..st },
            cs,
            Ok(()),
        ),
        SpecTransition::SetEmotion(name, emo) => if spec_set_emotion_ok(cs, name, emo) {
            (st, spec_set_emotion(cs, name, emo), Ok(()))
        } else {
            (st, cs, Err(SpecLookupError { character: name, emotion: emo }))
        },
    }
}

/// What one poll does: starting from the cursor, transitions apply one
/// after the other, in order, as long as the engine stays in the running
/// state; running out of transitions ends playback as exhausted. A failed
/// apply stops the drain and surfaces its error, with the failed
/// transition already consumed, so that the host may poll again to skip.
pub open spec fn spec_drain(
    ts: Seq<SpecTransition>,
    cursor: int,
    st: SpecStage,
    cs: Seq<SpecCharacter>,
) -> (int, SpecStage, Seq<SpecCharacter>, Result<(), SpecLookupError>)
    decreases ts.len() - cursor,
{
    if !(st.status is Running) || cursor < 0 {
        (cursor, st, cs, Ok(()))
    } else if cursor >= ts.len() {
        (cursor, SpecStage { status: Status::Ended(EndReason::Exhausted), ..st }, cs, Ok(()))
    } else {
        let stepped = spec_apply(ts[cursor], st, cs);
        match stepped.2 {
            Err(e) => (cursor + 1, stepped.0, stepped.1, Err(e)),
            Ok(_) => spec_drain(ts, cursor + 1, stepped.0, stepped.1),
        }
    }
}

/// A transition that neither blocks nor ends playback, and whose apply
/// cannot fail on the given registry: a background, a log, or a
/// set-emotion that every matching character can display.
pub open spec fn spec_plain(t: SpecTransition, cs: Seq<SpecCharacter>) -> bool {
    match t {
        SpecTransition::Background(_) => true,
        SpecTransition::Log(_) => true,
        SpecTransition::SetEmotion(n, e) => spec_set_emotion_ok(cs, n, e),
        SpecTransition::Say(_, _) => false,
        SpecTransition::End => false,
    }
}

/// The messages of the log transitions from `cursor` on, in file order.
pub open spec fn spec_log_messages(ts: Seq<SpecTransition>, cursor: int) -> Seq<Seq<char>>
    decreases ts.len() - cursor,
{
    if cursor < 0 || cursor >= ts.len() {
        Seq::empty()
    } else {
        let rest = spec_log_messages(ts, cursor + 1);
        match ts[cursor] {
            SpecTransition::Log(m) => seq![m] + rest,
            _ => rest,
        }
    }
}

/// Applying a background transition never fails and does nothing but
/// overwrite the current background, whatever the identifier and whatever
/// the rest of the state.
pub proof fn lemma_background_always_succeeds(id: Seq<char>, st: SpecStage, cs: Seq<SpecCharacter>)
    ensures
        spec_apply(SpecTransition::Background(id), st, cs) == (
            SpecStage { background: id, ..st },
            cs,
            Ok::<(), SpecLookupError>(()),
        ),
{
}

/// Draining an engine that is not running — blocked, ended, or never
/// loaded — is a no-op: no state change and no error.
pub proof fn lemma_drain_terminal_noop(
    ts: Seq<SpecTransition>,
    cursor: int,
    st: SpecStage,
    cs: Seq<SpecCharacter>,
)
    requires
        !(st.status is Running),
    ensures
        spec_drain(ts, cursor, st, cs) == (cursor, st, cs, Ok::<(), SpecLookupError>(())),
{
}

/// A running engine whose remaining transitions are all plain — no say,
/// no end, no failing set-emotion — drains fully in one poll: every
/// remaining transition applies, in file order, the engine ends as
/// exhausted, and the observation log grows by exactly the log messages
/// of the drained range, in that order.
pub proof fn lemma_drain_exhausts(
    ts: Seq<SpecTransition>,
    cursor: int,
    st: SpecStage,
    cs: Seq<SpecCharacter>,
)
    requires
        st.status is Running,
        0 <= cursor <= ts.len(),
        forall|i: int| cursor <= i < ts.len() ==> spec_plain(#[trigger] ts[i], cs),
    ensures
        ({
            let drained = spec_drain(ts, cursor, st, cs);
            drained.3 is Ok && drained.0 == ts.len() && drained.1.status == Status::Ended(
                EndReason::Exhausted,
            ) && drained.1.log == st.log + spec_log_messages(ts, cursor)
        }),
    decreases ts.len() - cursor,
{
    if cursor >= ts.len() {
        assert(st.log + spec_log_messages(ts, cursor) =~= st.log);
    } else {
        let stepped = spec_apply(ts[cursor], st, cs);
        match ts[cursor] {
            SpecTransition::Background(_) => {
                lemma_drain_exhausts(ts, cursor + 1, stepped.0, cs);
            },
            SpecTransition::Log(m) => {
                lemma_drain_exhausts(ts, cursor + 1, stepped.0, cs);
                assert(st.log.push(m) + spec_log_messages(ts, cursor + 1) =~= st.log + (seq![m]
                    + spec_log_messages(ts, cursor + 1)));
            },
            SpecTransition::SetEmotion(n, e) => {
                let cs1 = spec_set_emotion(cs, n, e);
                lemma_set_emotion_preserves_static(cs, n, e);
                assert forall|i: int| cursor + 1 <= i < ts.len() implies spec_plain(
                    #[trigger] ts[i],
                    cs1,
                ) by {
                    assert(spec_plain(ts[i], cs));
                    match ts[i] {
                        SpecTransition::SetEmotion(n2, e2) => {
                            assert forall|j: int| #![auto]
                                0 <= j < cs1.len() && cs1[j].name == n2 implies cs1[j]
                                .emotions.contains(e2) && spec_sprite_lookup(
                                cs1[j].sprites,
                                cs1[j].outfit,
                                e2,
                            ) is Some by {
                                assert(cs[j].name == n2);
                                assert(cs[j].emotions.contains(e2) && spec_sprite_lookup(
                                    cs[j].sprites,
                                    cs[j].outfit,
                                    e2,
                                ) is Some);
                            }
                        },
                        _ => (),
                    }
                }
                lemma_drain_exhausts(ts, cursor + 1, st, cs1);
                assert(spec_drain(ts, cursor + 1, st, cs1).1.log == st.log + spec_log_messages(
                    ts,
                    cursor + 1,
                ));
            },
            SpecTransition::Say(_, _) => {
                assert(spec_plain(ts[cursor], cs));
                assert(false);
            },
            SpecTransition::End => {
                assert(spec_plain(ts[cursor], cs));
                assert(false);
            },
        }
    }
}

impl PlaybackState {
    /// A fresh engine: nothing loaded, nothing played, no background.
    pub fn new() -> (s: Self)
        ensures
            s@.transitions.len() == 0,
            s@.cursor == 0,
            s@.stage.status is Idle,
            s@.stage.background.len() == 0,
            s@.stage.pending_say is None,
            s@.stage.log.len() == 0,
    {
        PlaybackState {
            transitions: Vec::new(),
            cursor: 0,
            status: Status::Idle,
            current_background: String::new(),
            pending_say: None,
            log: Vec::new(),
        }
    }

    /// Compiles the script text and, on success, replaces the loaded
    /// sequence wholesale: the cursor rewinds, the log clears, and the
    /// engine starts running. A compile error leaves the engine untouched:
    /// no partial compilation artifact is ever retained.
    pub fn load_script(&mut self, text: &str) -> (r: Result<(), CompileError>)
        ensures
            match r {
                Ok(()) => spec_compile_script(text@) matches Ok(ts) && final(self)@.transitions
                    == ts && final(self)@.cursor == 0 && final(self)@.stage.status is Running
                    && final(self)@.stage.background == old(self)@.stage.background && final(self)@.stage.pending_say is None && final(self)@.stage.log.len() == 0,
                Err(e) => spec_compile_script(text@) == Err::<Seq<SpecTransition>, SpecCompileError>(
                    e@,
                ) && final(self)@ == old(self)@,
            },
    {
        match compile_script(text) {
            Ok(ts) => {
                self.transitions = ts;
                self.cursor = 0;
                self.status = Status::Running;
                self.pending_say = None;
                self.log = Vec::new();
                Ok(())
            },
            Err(e) => Err(e),
        }
    }

    /// The external dismiss signal: a blocked engine resumes running and
    /// drops the displayed dialogue; in any other state this is a no-op.
    pub fn advance(&mut self)
        ensures
            old(self)@.stage.status is Blocked ==> final(self)@ == (SpecPlayback {
                stage: SpecStage {
                    status: Status::Running,
                    pending_say: None,
                    ..old(self)@.stage
                },
                ..old(self)@
            }),
            !(old(self)@.stage.status is Blocked) ==> final(self)@ == old(self)@,
    {
        if self.status == Status::Blocked {
            self.status = Status::Running;
            self.pending_say = None;
        }
    }

    /// Applies one transition to the stage and the character registry.
    /// Never touches the sequence or the cursor.
    fn apply_transition(&mut self, t: Transition, characters: &mut Vec<Character>) -> (r: Result<
        (),
        LookupError,
    >)
        ensures
            final(self)@.transitions == old(self)@.transitions,
            final(self)@.cursor == old(self)@.cursor,
            ({
                let stepped = spec_apply(t@, old(self)@.stage, spec_chars(old(characters)@));
                final(self)@.stage == stepped.0 && spec_chars(final(characters)@) == stepped.1
                    && match (r, stepped.2) {
                    (Ok(()), Ok(())) => true,
                    (Err(e), Err(e2)) => e@ == e2,
                    _ => false,
                }
            }),
    {
        match t {
            Transition::Background(id) => {
                self.current_background = id;
                Ok(())
            },
            Transition::Log(m) => {
                let ghost prev = spec_strings(self.log@);
                self.log.push(m);
                proof {
                    assert(spec_strings(self.log@) =~= prev.push(self.log@.last()@));
                }
                Ok(())
            },
            Transition::Say(c, m) => {
                self.status = Status::Blocked;
                self.pending_say = Some((c, m));
                Ok(())
            },
            Transition::End => {
                self.status = Status::Ended(EndReason::ScriptEnd);
                Ok(())
            },
            Transition::SetEmotion(c, e) => apply_set_emotion(characters, c.as_str(), e.as_str()),
        }
    }

    /// One poll: drains and applies transitions, in file order, until the
    /// sequence is exhausted, a transition blocks or ends playback, or a
    /// lookup fails — exactly as [`spec_drain`] says. Polling an engine
    /// that is not running is a no-op.
    #[verifier::loop_isolation(false)]
    pub fn poll(&mut self, characters: &mut Vec<Character>) -> (r: Result<(), LookupError>)
        ensures
            ({
                let drained = spec_drain(
                    old(self)@.transitions,
                    old(self)@.cursor,
                    old(self)@.stage,
                    spec_chars(old(characters)@),
                );
                final(self)@.transitions == old(self)@.transitions && final(self)@.cursor
                    == drained.0 && final(self)@.stage == drained.1 && spec_chars(
                    final(characters)@,
                ) == drained.2 && match (r, drained.3) {
                    (Ok(()), Ok(())) => true,
                    (Err(e), Err(e2)) => e@ == e2,
                    _ => false,
                }
            }),
    {
        let ghost drained = spec_drain(
            self@.transitions,
            self@.cursor,
            self@.stage,
            spec_chars(characters@),
        );
        while self.status == Status::Running && self.cursor < self.transitions.len()
            invariant
                self@.transitions == old(self)@.transitions,
                drained == spec_drain(
                    self@.transitions,
                    self@.cursor,
                    self@.stage,
                    spec_chars(characters@),
                ),
            decreases self.transitions.len() - self.cursor,
        {
            let t = (&self.transitions[self.cursor]).clone();
            self.cursor = self.cursor + 1;
            match self.apply_transition(t, characters) {
                Ok(()) => (),
                Err(e) => {
                    return Err(e);
                },
            }
        }
        if self.status == Status::Running {
            self.status = Status::Ended(EndReason::Exhausted);
        }
        Ok(())
    }

    /// The engine's current state.
    pub fn status(&self) -> (s: Status)
        ensures
            s == self@.stage.status,
    {
        self.status
    }

    /// The identifier of the active background.
    pub fn background(&self) -> (b: &String)
        ensures
            b@ == self@.stage.background,
    {
        &self.current_background
    }

    /// The dialogue on display while the engine is blocked, as the pair
    /// (character, message).
    pub fn pending_say(&self) -> (p: &Option<(String, String)>)
        ensures
            match p {
                Some((c, m)) => self@.stage.pending_say == Some((c@, m@)),
                None => self@.stage.pending_say is None,
            },
    {
        &self.pending_say
    }

    /// The observation log: every message a log transition has emitted
    /// since the last compile pass, in application order.
    pub fn log(&self) -> (l: &Vec<String>)
        ensures
            spec_strings(l@) == self@.stage.log,
    {
        &self.log
    }

    /// The cursor: how many transitions have been consumed.
    pub fn cursor(&self) -> (c: usize)
        ensures
            c == self@.cursor,
    {
        self.cursor
    }
}

} // verus!
