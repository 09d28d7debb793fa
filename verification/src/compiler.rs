//! The transition compiler: from script text to an ordered sequence of
//! typed transitions, or the first compile error.

use vstd::prelude::*;
use crate::grammar::{
    spec_command, spec_args, spec_lookup, extract_command, extract_args, lookup_arg, str_eq,
    spec_lines_from, split_lines,
};
use crate::transition::{Transition, SpecTransition, CompileError, SpecCompileError, spec_transitions};

verus! {

/// What one line compiles to: the command identifier is dispatched against
/// the fixed command table, each command requires its argument keys, and a
/// `set` line is further dispatched on its `type` argument.
pub open spec fn spec_compile_line(s: Seq<char>) -> Result<SpecTransition, SpecCompileError> {
    match spec_command(s) {
        None => Err(SpecCompileError::MalformedLine),
        Some(cmd) => {
            let args = spec_args(s);
            if cmd == "log"@ {
                match spec_lookup(args, "msg"@) {
                    Some(m) => Ok(SpecTransition::Log(m)),
                    None => Err(SpecCompileError::MissingArgument("log"@, "msg"@)),
                }
            } else if cmd == "bg"@ {
                match spec_lookup(args, "background"@) {
                    Some(b) => Ok(SpecTransition::Background(b)),
                    None => Err(SpecCompileError::MissingArgument("bg"@, "background"@)),
                }
            } else if cmd == "say"@ {
                match spec_lookup(args, "character"@) {
                    None => Err(SpecCompileError::MissingArgument("say"@, "character"@)),
                    Some(c) => match spec_lookup(args, "msg"@) {
                        None => Err(SpecCompileError::MissingArgument("say"@, "msg"@)),
                        Some(m) => Ok(SpecTransition::Say(c, m)),
                    },
                }
            } else if cmd == "set"@ {
                match spec_lookup(args, "type"@) {
                    None => Err(SpecCompileError::MissingArgument("set"@, "type"@)),
                    Some(t) => if t == "emotion"@ {
                        match spec_lookup(args, "character"@) {
                            None => Err(SpecCompileError::MissingArgument("set"@, "character"@)),
                            Some(c) => match spec_lookup(args, "emotion"@) {
                                None => Err(SpecCompileError::MissingArgument("set"@, "emotion"@)),
                                Some(e) => Ok(SpecTransition::SetEmotion(c, e)),
                            },
                        }
                    } else {
                        Err(SpecCompileError::UnknownSubtype(t))
                    },
                }
            } else if cmd == "end"@ {
                Ok(SpecTransition::End)
            } else {
                Err(SpecCompileError::UnknownCommand(cmd))
            }
        },
    }
}

/// Compiles one script line into a transition, or the error that line
/// deserves, exactly as [`spec_compile_line`] says.
pub fn compile_line(line: &str) -> (r: Result<Transition, CompileError>)
    ensures
        match r {
            Ok(t) => spec_compile_line(line@) == Ok::<SpecTransition, SpecCompileError>(t@),
            Err(e) => spec_compile_line(line@) == Err::<SpecTransition, SpecCompileError>(e@),
        },
{
    let cmd = match extract_command(line) {
        Some(c) => c,
        None => {
            return Err(CompileError::MalformedLine);
        },
    };
    let args = extract_args(line);
    if str_eq(cmd.as_str(), "log") {
        match lookup_arg(&args, "msg") {
            Some(m) => Ok(Transition::Log(m)),
            None => Err(
                CompileError::MissingArgument(String::from_str("log"), String::from_str("msg")),
            ),
        }
    } else if str_eq(cmd.as_str(), "bg") {
        match lookup_arg(&args, "background") {
            Some(b) => Ok(Transition::Background(b)),
            None => Err(
                CompileError::MissingArgument(
                    String::from_str("bg"),
                    String::from_str("background"),
                ),
            ),
        }
    } else if str_eq(cmd.as_str(), "say") {
        match lookup_arg(&args, "character") {
            None => Err(
                CompileError::MissingArgument(
                    String::from_str("say"),
                    String::from_str("character"),
                ),
            ),
            Some(c) => match lookup_arg(&args, "msg") {
                None => Err(
                    CompileError::MissingArgument(String::from_str("say"), String::from_str("msg")),
                ),
                Some(m) => Ok(Transition::Say(c, m)),
            },
        }
    } else if str_eq(cmd.as_str(), "set") {
        match lookup_arg(&args, "type") {
            None => Err(
                CompileError::MissingArgument(String::from_str("set"), String::from_str("type")),
            ),
            Some(t) => if str_eq(t.as_str(), "emotion") {
                match lookup_arg(&args, "character") {
                    None => Err(
                        CompileError::MissingArgument(
                            String::from_str("set"),
                            String::from_str("character"),
                        ),
                    ),
                    Some(c) => match lookup_arg(&args, "emotion") {
                        None => Err(
                            CompileError::MissingArgument(
                                String::from_str("set"),
                                String::from_str("emotion"),
                            ),
                        ),
                        Some(e) => Ok(Transition::SetEmotion(c, e)),
                    },
                }
            } else {
                Err(CompileError::UnknownSubtype(t))
            },
        }
    } else if str_eq(cmd.as_str(), "end") {
        Ok(Transition::End)
    } else {
        Err(CompileError::UnknownCommand(cmd))
    }
}

/// What a whole list of lines compiles to: the transitions in file order,
/// or the error of the first line that fails.
pub open spec fn spec_compile_lines(ls: Seq<Seq<char>>) -> Result<
    Seq<SpecTransition>,
    SpecCompileError,
>
    decreases ls.len(),
{
    if ls.len() == 0 {
        Ok(Seq::empty())
    } else {
        match spec_compile_line(ls.first()) {
            Err(e) => Err(e),
            Ok(t) => match spec_compile_lines(ls.drop_first()) {
                Err(e) => Err(e),
                Ok(rest) => Ok(seq![t] + rest),
            },
        }
    }
}

/// What a whole script text compiles to, line by line in file order.
pub open spec fn spec_compile_script(s: Seq<char>) -> Result<Seq<SpecTransition>, SpecCompileError> {
    spec_compile_lines(spec_lines_from(s, 0))
}

/// Compiles the full script text: every line in file order, failing fast
/// on the first invalid line with no partial result.
pub fn compile_script(text: &str) -> (r: Result<Vec<Transition>, CompileError>)
    ensures
        match r {
            Ok(ts) => spec_compile_script(text@) == Ok::<Seq<SpecTransition>, SpecCompileError>(
                spec_transitions(ts@),
            ),
            Err(e) => spec_compile_script(text@) == Err::<Seq<SpecTransition>, SpecCompileError>(
                e@,
            ),
        },
{
    let lines = split_lines(text);
    let ghost lv = lines@.map_values(|l: String| l@);
    let mut out: Vec<Transition> = Vec::new();
    let mut idx: usize = 0;
    proof {
        assert(lv =~= spec_lines_from(text@, 0));
        assert(lv.skip(0) =~= lv);
    }
    while idx < lines.len()
        invariant
            idx <= lines.len(),
            lv == lines@.map_values(|l: String| l@),
            lv == spec_lines_from(text@, 0),
            spec_compile_lines(lv) == (match spec_compile_lines(lv.skip(idx as int)) {
                Ok(rest) => Ok::<Seq<SpecTransition>, SpecCompileError>(
                    spec_transitions(out@) + rest,
                ),
                Err(e) => Err::<Seq<SpecTransition>, SpecCompileError>(e),
            }),
        decreases lines.len() - idx,
    {
        let ghost tail = lv.skip(idx as int);
        proof {
            assert(tail.first() == lv[idx as int]);
            assert(tail.drop_first() =~= lv.skip(idx + 1 as int));
        }
        match compile_line(lines[idx].as_str()) {
            Err(e) => {
                return Err(e);
            },
            Ok(t) => {
                let ghost prev = spec_transitions(out@);
                out.push(t);
                proof {
                    assert(spec_transitions(out@) =~= prev + seq![t@]);
                    if spec_compile_lines(lv.skip(idx + 1 as int)) is Ok {
                        let rest = spec_compile_lines(lv.skip(idx + 1 as int))->Ok_0;
                        assert((prev + seq![t@]) + rest =~= prev + (seq![t@] + rest));
                    }
                }
                idx += 1;
            },
        }
    }
    proof {
        assert(lv.skip(idx as int) =~= Seq::<Seq<char>>::empty());
        assert(spec_transitions(out@) + Seq::<SpecTransition>::empty() =~= out@
            .map_values(|t: Transition| t@));
    }
    Ok(out)
}

/// No lossy transformation of value strings: whatever the compiler stores
/// in a transition's fields is verbatim the value that the grammar
/// extracted from the line for the corresponding argument key. Compiling
/// and then reading the fields back reproduces the original argument
/// values exactly.
pub proof fn lemma_compile_preserves_argument_values(s: Seq<char>)
    ensures
        match spec_compile_line(s) {
            Ok(t) => match t {
                SpecTransition::Log(m) => spec_lookup(spec_args(s), "msg"@) == Some(m),
                SpecTransition::Background(b) => spec_lookup(spec_args(s), "background"@) == Some(
                    b,
                ),
                SpecTransition::Say(c, m) => spec_lookup(spec_args(s), "character"@) == Some(c)
                    && spec_lookup(spec_args(s), "msg"@) == Some(m),
                SpecTransition::SetEmotion(c, e) => spec_lookup(spec_args(s), "character"@) == Some(
                    c,
                ) && spec_lookup(spec_args(s), "emotion"@) == Some(e),
                SpecTransition::End => true,
            },
            Err(_) => true,
        },
{
}

} // verus!
