//! A small visual-novel script interpreter.
//!
//! A script is a line-based text: each line holds one command word and
//! backtick-delimited `key=`value`` arguments. The [`grammar`] module
//! extracts both; the [`compiler`] turns each line into one typed
//! [`transition::Transition`] or fails fast with a descriptive error; the
//! [`engine`] owns the compiled sequence and, when polled, drains it in
//! file order against the presentation state and the [`character`]
//! registry, blocking on dialogue and ending on an explicit end or on
//! exhaustion. The [`import`] module builds a well-formed character
//! record from its JSON definition document.
//!
//! Rendering, asset loading and windowing are the host's business: the
//! library speaks of sprite images only through numeric handles that the
//! host assigns.

pub mod character;
pub mod compiler;
pub mod engine;
pub mod grammar;
pub mod import;
pub mod transition;
