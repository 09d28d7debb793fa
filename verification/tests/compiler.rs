use vnscript::compiler::{compile_line, compile_script};
use vnscript::transition::{CompileError, Transition};

#[test]
fn log_line_compiles_to_log() {
    let t = compile_line("log msg=`hello`").unwrap();
    assert!(matches!(t, Transition::Log(m) if m == "hello"));
}

#[test]
fn bg_line_compiles_to_background() {
    let t = compile_line("bg background=`forest`").unwrap();
    assert!(matches!(t, Transition::Background(b) if b == "forest"));
}

#[test]
fn set_emotion_line_compiles_to_set_emotion() {
    let t = compile_line("set type=`emotion` character=`Nayu` emotion=`happy`").unwrap();
    assert!(matches!(t, Transition::SetEmotion(c, e) if c == "Nayu" && e == "happy"));
}

#[test]
fn say_line_compiles_to_say() {
    let t = compile_line("say character=`Nayu` msg=`Good morning!`").unwrap();
    assert!(matches!(t, Transition::Say(c, m) if c == "Nayu" && m == "Good morning!"));
}

#[test]
fn end_line_compiles_to_end() {
    let t = compile_line("end ").unwrap();
    assert!(matches!(t, Transition::End));
}

#[test]
fn command_at_end_of_line_needs_no_trailing_space() {
    let t = compile_line("end").unwrap();
    assert!(matches!(t, Transition::End));
}

#[test]
fn word_inside_backticks_is_no_command() {
    let e = compile_line("=`x`").unwrap_err();
    assert!(matches!(e, CompileError::MalformedLine));
}

#[test]
fn word_glued_to_its_value_is_no_command() {
    let e = compile_line("log=`x`").unwrap_err();
    assert!(matches!(e, CompileError::MalformedLine));
}

#[test]
fn argument_key_is_not_taken_for_the_command() {
    let t = compile_line("a=`b` log msg=`c`").unwrap();
    assert!(matches!(t, Transition::Log(m) if m == "c"));
}

#[test]
fn unknown_set_subtype_is_rejected() {
    let e = compile_line("set type=`weather` character=`Nayu`").unwrap_err();
    assert!(matches!(e, CompileError::UnknownSubtype(t) if t == "weather"));
}

#[test]
fn log_without_msg_is_rejected() {
    let e = compile_line("log level=`debug`").unwrap_err();
    assert!(matches!(e, CompileError::MissingArgument(c, k) if c == "log" && k == "msg"));
}

#[test]
fn unknown_command_is_rejected() {
    let e = compile_line("warp target=`cafe`").unwrap_err();
    assert!(matches!(e, CompileError::UnknownCommand(c) if c == "warp"));
}

#[test]
fn line_without_any_word_is_malformed() {
    let e = compile_line("  !?  ").unwrap_err();
    assert!(matches!(e, CompileError::MalformedLine));
}

#[test]
fn empty_line_is_malformed() {
    let e = compile_line("").unwrap_err();
    assert!(matches!(e, CompileError::MalformedLine));
}

#[test]
fn argument_values_are_kept_verbatim() {
    let t = compile_line("log msg=`  spaced = and $pecial, chars! `").unwrap();
    assert!(matches!(t, Transition::Log(m) if m == "  spaced = and $pecial, chars! "));
}

#[test]
fn empty_value_is_kept_empty() {
    let t = compile_line("bg background=``").unwrap();
    assert!(matches!(t, Transition::Background(b) if b.is_empty()));
}

#[test]
fn later_duplicate_key_wins() {
    let t = compile_line("log msg=`first` msg=`second`").unwrap();
    assert!(matches!(t, Transition::Log(m) if m == "second"));
}

#[test]
fn first_backtick_always_closes_the_value() {
    // A backtick cannot occur inside a value: the scan resumes after it,
    // so the rest of the line is parsed on its own.
    let t = compile_line("log msg=`one` stray extra=`two`").unwrap();
    assert!(matches!(t, Transition::Log(m) if m == "one"));
}

#[test]
fn script_compiles_every_line_in_order() {
    let ts = compile_script("log msg=`a`\nbg background=`b`\nend ").unwrap();
    assert_eq!(ts.len(), 3);
    assert!(matches!(&ts[0], Transition::Log(m) if m == "a"));
    assert!(matches!(&ts[1], Transition::Background(b) if b == "b"));
    assert!(matches!(&ts[2], Transition::End));
}

#[test]
fn script_compilation_fails_fast_on_first_bad_line() {
    let e = compile_script("log msg=`a`\nnope \nalso bad").unwrap_err();
    assert!(matches!(e, CompileError::UnknownCommand(c) if c == "nope"));
}

#[test]
fn trailing_newline_adds_no_line() {
    let ts = compile_script("log msg=`a`\n").unwrap();
    assert_eq!(ts.len(), 1);
}

#[test]
fn carriage_return_line_endings_are_accepted() {
    let ts = compile_script("log msg=`a`\r\nbg background=`b`\r\n").unwrap();
    assert_eq!(ts.len(), 2);
    assert!(matches!(&ts[1], Transition::Background(b) if b == "b"));
}

#[test]
fn empty_script_compiles_to_nothing() {
    let ts = compile_script("").unwrap();
    assert_eq!(ts.len(), 0);
}

#[test]
fn blank_line_in_script_is_malformed() {
    let e = compile_script("log msg=`a`\n\nlog msg=`b`").unwrap_err();
    assert!(matches!(e, CompileError::MalformedLine));
}
