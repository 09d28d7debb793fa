//! The closed set of compiled script instructions, and the compile errors.

use vstd::prelude::*;

verus! {

/// A compiled script instruction, at the specification level.
pub ghost enum SpecTransition {
    Background(Seq<char>),
    Say(Seq<char>, Seq<char>),
    SetEmotion(Seq<char>, Seq<char>),
    Log(Seq<char>),
    End,
}

/// One compiled, typed script instruction. Immutable once compiled.
#[derive(Debug)]
pub enum Transition {
    /// Sets the active background identifier.
    Background(String),
    /// Displays dialogue spoken by a character and blocks the engine
    /// until the host dismisses it.
    Say(String, String),
    /// Changes a character's displayed emotion and its sprite.
    SetEmotion(String, String),
    /// Emits a diagnostic message; no state change.
    Log(String),
    /// Terminates script playback permanently.
    End,
}

impl View for Transition {
    type V = SpecTransition;

    open spec fn view(&self) -> SpecTransition {
        match self {
            Transition::Background(id) => SpecTransition::Background(id@),
            Transition::Say(c, m) => SpecTransition::Say(c@, m@),
            Transition::SetEmotion(c, e) => SpecTransition::SetEmotion(c@, e@),
            Transition::Log(m) => SpecTransition::Log(m@),
            Transition::End => SpecTransition::End,
        }
    }
}

impl Clone for Transition {
    fn clone(&self) -> (r: Self)
        ensures
            r@ == self@,
    {
        match self {
            Transition::Background(id) => Transition::Background(id.clone()),
            Transition::Say(c, m) => Transition::Say(c.clone(), m.clone()),
            Transition::SetEmotion(c, e) => Transition::SetEmotion(c.clone(), e.clone()),
            Transition::Log(m) => Transition::Log(m.clone()),
            Transition::End => Transition::End,
        }
    }
}

/// The view of a whole sequence of compiled transitions.
pub open spec fn spec_transitions(ts: Seq<Transition>) -> Seq<SpecTransition> {
    ts.map_values(|t: Transition| t@)
}

/// A compile failure, at the specification level.
pub ghost enum SpecCompileError {
    MalformedLine,
    MissingArgument(Seq<char>, Seq<char>),
    UnknownCommand(Seq<char>),
    UnknownSubtype(Seq<char>),
}

/// Why a script line failed to compile. Compilation is fail-fast: the
/// first offending line aborts the whole compile pass.
#[derive(Debug)]
pub enum CompileError {
    /// The line holds no command identifier at all.
    MalformedLine,
    /// The named command lacks the named required argument key.
    MissingArgument(String, String),
    /// The command identifier is not one of the known commands.
    UnknownCommand(String),
    /// A `set` line names a subtype other than `emotion`.
    UnknownSubtype(String),
}

impl View for CompileError {
    type V = SpecCompileError;

    open spec fn view(&self) -> SpecCompileError {
        match self {
            CompileError::MalformedLine => SpecCompileError::MalformedLine,
            CompileError::MissingArgument(c, k) => SpecCompileError::MissingArgument(c@, k@),
            CompileError::UnknownCommand(c) => SpecCompileError::UnknownCommand(c@),
            CompileError::UnknownSubtype(t) => SpecCompileError::UnknownSubtype(t@),
        }
    }
}

} // verus!
