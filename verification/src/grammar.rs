//! The command grammar for one script line.
//!
//! A line consists of a command identifier — its first bare word, a
//! maximal run of word characters followed by whitespace or by the end
//! of the line — and any number of `key=`value`` argument pairs,
//! where the value is the text between a pair of backtick delimiters.
//! A value cannot itself contain a backtick: the first backtick after the
//! opening one always closes the value. This is a documented limitation of
//! the grammar, not an escaping mechanism.

use vstd::prelude::*;

verus! {

/// A word character: an ASCII letter, an ASCII digit, or an underscore.
pub open spec fn is_word_char(c: char) -> bool {
    ('a' as u32 <= c as u32 && c as u32 <= 'z' as u32) || ('A' as u32 <= c as u32 && c as u32
        <= 'Z' as u32) || ('0' as u32 <= c as u32 && c as u32 <= '9' as u32) || c == '_'
}

/// Executable test for [`is_word_char`].
pub fn word_char(c: char) -> (b: bool)
    ensures
        b == is_word_char(c),
{
    let u = c as u32;
    ('a' as u32 <= u && u <= 'z' as u32) || ('A' as u32 <= u && u <= 'Z' as u32) || ('0' as u32 <= u
        && u <= '9' as u32) || c == '_'
}

/// The position of the first occurrence of `c` at or after `i`, if any.
pub open spec fn find_char(s: Seq<char>, i: int, c: char) -> Option<int>
    decreases s.len() - i,
{
    if i < 0 || i >= s.len() {
        None
    } else if s[i] == c {
        Some(i)
    } else {
        find_char(s, i + 1, c)
    }
}

/// The end (exclusive) of the run of word characters starting at `i`.
pub open spec fn word_end(s: Seq<char>, i: int) -> int
    decreases s.len() - i,
{
    if i < 0 || i >= s.len() {
        i
    } else if is_word_char(s[i]) {
        word_end(s, i + 1)
    } else {
        i
    }
}

/// Where `find_char` points, the character stands, and none before it.
pub proof fn lemma_find_char(s: Seq<char>, i: int, c: char)
    requires
        0 <= i,
    ensures
        match find_char(s, i, c) {
            Some(k) => i <= k < s.len() && s[k] == c && forall|j: int|
                i <= j < k ==> s[j] != c,
            None => forall|j: int| i <= j < s.len() ==> s[j] != c,
        },
    decreases s.len() - i,
{
    if i < 0 || i >= s.len() {
    } else if s[i] == c {
    } else {
        lemma_find_char(s, i + 1, c);
    }
}

/// Bounds for `word_end`: the run it closes is made of word characters and
/// ends either at the end of the line or before a non-word character.
pub proof fn lemma_word_end(s: Seq<char>, i: int)
    requires
        0 <= i <= s.len(),
    ensures
        i <= word_end(s, i) <= s.len(),
        forall|j: int| i <= j < word_end(s, i) ==> is_word_char(s[j]),
        word_end(s, i) < s.len() ==> !is_word_char(s[word_end(s, i)]),
        i < s.len() && is_word_char(s[i]) ==> word_end(s, i) > i,
    decreases s.len() - i,
{
    if i < s.len() && is_word_char(s[i]) {
        lemma_word_end(s, i + 1);
    }
}

/// A whitespace character, as far as a script line can hold one.
pub open spec fn is_space_char(c: char) -> bool {
    c == ' ' || c == '\t' || c == '\r' || c == '\n'
}

/// Executable test for [`is_space_char`].
pub fn space_char(c: char) -> (b: bool)
    ensures
        b == is_space_char(c),
{
    c == ' ' || c == '\t' || c == '\r' || c == '\n'
}

/// The start of the first bare word of the line at or after `i`: a
/// maximal word-character run followed by whitespace or by the end of the
/// line. A run glued to anything else — an `=`, a backtick — is an
/// argument fragment, not a command word, and is skipped over whole.
pub open spec fn bare_word_start(s: Seq<char>, i: int) -> Option<int>
    decreases s.len() - i,
    via bare_word_start_decreases
{
    if i < 0 || i >= s.len() {
        None
    } else if !is_word_char(s[i]) {
        bare_word_start(s, i + 1)
    } else {
        let j = word_end(s, i);
        if j >= s.len() || is_space_char(s[j]) {
            Some(i)
        } else {
            bare_word_start(s, j)
        }
    }
}

#[via_fn]
proof fn bare_word_start_decreases(s: Seq<char>, i: int) {
    if 0 <= i < s.len() && is_word_char(s[i]) {
        lemma_word_end(s, i);
    }
}

/// The command identifier of a line: its first bare word — a maximal
/// word-character run followed by whitespace or by the end of the line.
pub open spec fn spec_command(s: Seq<char>) -> Option<Seq<char>> {
    match bare_word_start(s, 0) {
        Some(j) => Some(s.subrange(j, word_end(s, j))),
        None => None,
    }
}

/// Extracts the command identifier of `line`, or `None` when the line
/// holds no bare word at all.
pub fn extract_command(line: &str) -> (r: Option<String>)
    ensures
        match r {
            Some(c) => spec_command(line@) == Some(c@),
            None => spec_command(line@) is None,
        },
{
    let n = line.unicode_len();
    let mut i: usize = 0;
    while i < n
        invariant
            0 <= i <= n,
            n == line@.len(),
            bare_word_start(line@, 0) == bare_word_start(line@, i as int),
        decreases n - i,
    {
        if !word_char(line.get_char(i)) {
            i += 1;
        } else {
            let mut j: usize = i;
            while j < n && word_char(line.get_char(j))
                invariant
                    i <= j <= n,
                    n == line@.len(),
                    word_end(line@, i as int) == word_end(line@, j as int),
                decreases n - j,
            {
                j += 1;
            }
            if j == n || space_char(line.get_char(j)) {
                let cmd = line.substring_char(i, j);
                return Some(cmd.to_owned());
            }
            i = j;
        }
    }
    None
}

/// One `key=`value`` argument pair, at the specification level.
pub ghost struct SpecArg {
    pub key: Seq<char>,
    pub value: Seq<char>,
}

/// One `key=`value`` argument pair as extracted from a line.
pub struct Arg {
    pub key: String,
    pub value: String,
}

impl View for Arg {
    type V = SpecArg;

    open spec fn view(&self) -> SpecArg {
        SpecArg { key: self.key@, value: self.value@ }
    }
}

/// The argument pairs of a line, scanning from position `i`: a run of word
/// characters directly followed by `=` and an opening backtick starts a
/// pair whose value reaches to the first closing backtick; everything else
/// is skipped. The scan resumes after the closing backtick, so a backtick
/// can never occur inside a value.
pub open spec fn spec_args_from(s: Seq<char>, i: int) -> Seq<SpecArg>
    decreases s.len() - i,
    via spec_args_from_decreases
{
    if i < 0 || i >= s.len() {
        Seq::empty()
    } else if !is_word_char(s[i]) {
        spec_args_from(s, i + 1)
    } else {
        let j = word_end(s, i);
        if j + 1 < s.len() && s[j] == '=' && s[j + 1] == '`' {
            match find_char(s, j + 2, '`') {
                Some(k) => seq![
                    SpecArg { key: s.subrange(i, j), value: s.subrange(j + 2, k) },
                ] + spec_args_from(s, k + 1),
                None => spec_args_from(s, j + 2),
            }
        } else {
            spec_args_from(s, j)
        }
    }
}

#[via_fn]
proof fn spec_args_from_decreases(s: Seq<char>, i: int) {
    if 0 <= i < s.len() && is_word_char(s[i]) {
        lemma_word_end(s, i);
        let j = word_end(s, i);
        if j + 1 < s.len() && s[j] == '=' && s[j + 1] == '`' {
            lemma_find_char(s, j + 2, '`');
        }
    }
}

/// The argument pairs of a whole line, in order of appearance.
pub open spec fn spec_args(s: Seq<char>) -> Seq<SpecArg> {
    spec_args_from(s, 0)
}

/// Extracts every argument pair of `line`, in order of appearance.
pub fn extract_args(line: &str) -> (r: Vec<Arg>)
    ensures
        r@.map_values(|a: Arg| a@) == spec_args(line@),
{
    let n = line.unicode_len();
    let mut out: Vec<Arg> = Vec::new();
    let mut i: usize = 0;
    while i < n
        invariant
            0 <= i <= n,
            n == line@.len(),
            spec_args(line@) == out@.map_values(|a: Arg| a@) + spec_args_from(line@, i as int),
        decreases n - i,
    {
        if !word_char(line.get_char(i)) {
            i += 1;
        } else {
            let mut j: usize = i;
            while j < n && word_char(line.get_char(j))
                invariant
                    i <= j <= n,
                    n == line@.len(),
                    word_end(line@, i as int) == word_end(line@, j as int),
                decreases n - j,
            {
                j += 1;
            }
            if n - j > 1 && line.get_char(j) == '=' && line.get_char(j + 1) == '`' {
                let mut k: usize = j + 2;
                while k < n && line.get_char(k) != '`'
                    invariant
                        j + 2 <= k <= n,
                        n == line@.len(),
                        find_char(line@, j + 2 as int, '`') == find_char(line@, k as int, '`'),
                    decreases n - k,
                {
                    k += 1;
                }
                if k < n {
                    let key = line.substring_char(i, j).to_owned();
                    let value = line.substring_char(j + 2, k).to_owned();
                    let ghost prev = out@.map_values(|a: Arg| a@);
                    out.push(Arg { key, value });
                    proof {
                        assert(out@.map_values(|a: Arg| a@) =~= prev + seq![
                            SpecArg {
                                key: line@.subrange(i as int, j as int),
                                value: line@.subrange(j + 2 as int, k as int),
                            },
                        ]);
                        assert(spec_args(line@) =~~= out@.map_values(|a: Arg| a@)
                            + spec_args_from(line@, k + 1 as int));
                    }
                    i = k + 1;
                } else {
                    i = j + 2;
                }
            } else {
                i = j;
            }
        }
    }
    out
}

/// The value of the last pair whose key is `key`, if any: when a key is
/// given twice on one line, the later pair wins.
pub open spec fn spec_lookup(args: Seq<SpecArg>, key: Seq<char>) -> Option<Seq<char>>
    decreases args.len(),
{
    if args.len() == 0 {
        None
    } else if args.last().key == key {
        Some(args.last().value)
    } else {
        spec_lookup(args.drop_last(), key)
    }
}

/// A line as delivered by the splitter: a carriage return directly before
/// the terminating newline is not part of the line.
pub open spec fn strip_cr(l: Seq<char>) -> Seq<char> {
    if l.len() > 0 && l.last() == '\r' {
        l.drop_last()
    } else {
        l
    }
}

/// The lines of the script text from position `i` on: lines end at a
/// newline, optionally preceded by a carriage return, and the final
/// newline is optional.
pub open spec fn spec_lines_from(s: Seq<char>, i: int) -> Seq<Seq<char>>
    decreases s.len() - i,
    via spec_lines_from_decreases
{
    if i < 0 || i >= s.len() {
        Seq::empty()
    } else {
        match find_char(s, i, '\n') {
            Some(k) => seq![strip_cr(s.subrange(i, k))] + spec_lines_from(s, k + 1),
            None => seq![s.subrange(i, s.len() as int)],
        }
    }
}

#[via_fn]
proof fn spec_lines_from_decreases(s: Seq<char>, i: int) {
    if 0 <= i < s.len() {
        lemma_find_char(s, i, '\n');
    }
}

/// Splits the script text into its lines, as [`spec_lines_from`] says.
pub fn split_lines(text: &str) -> (r: Vec<String>)
    ensures
        r@.map_values(|l: String| l@) == spec_lines_from(text@, 0),
{
    let n = text.unicode_len();
    let mut out: Vec<String> = Vec::new();
    let mut i: usize = 0;
    while i < n
        invariant
            0 <= i <= n,
            n == text@.len(),
            spec_lines_from(text@, 0) == out@.map_values(|l: String| l@) + spec_lines_from(
                text@,
                i as int,
            ),
        decreases n - i,
    {
        let mut k: usize = i;
        while k < n && text.get_char(k) != '\n'
            invariant
                i <= k <= n,
                n == text@.len(),
                find_char(text@, i as int, '\n') == find_char(text@, k as int, '\n'),
            decreases n - k,
        {
            k += 1;
        }
        let ghost prev = out@.map_values(|l: String| l@);
        if k < n {
            let end = if k > i && text.get_char(k - 1) == '\r' {
                k - 1
            } else {
                k
            };
            proof {
                if k > i && text@[k - 1 as int] == '\r' {
                    assert(text@.subrange(i as int, k as int).drop_last() =~= text@.subrange(
                        i as int,
                        k - 1 as int,
                    ));
                }
            }
            out.push(text.substring_char(i, end).to_owned());
            proof {
                assert(out@.map_values(|l: String| l@) =~= prev + seq![
                    strip_cr(text@.subrange(i as int, k as int)),
                ]);
                assert(spec_lines_from(text@, 0) =~~= out@.map_values(|l: String| l@)
                    + spec_lines_from(text@, k + 1 as int));
            }
            i = k + 1;
        } else {
            out.push(text.substring_char(i, n).to_owned());
            proof {
                assert(out@.map_values(|l: String| l@) =~= prev + seq![
                    text@.subrange(i as int, n as int),
                ]);
                assert(spec_lines_from(text@, 0) =~~= out@.map_values(|l: String| l@)
                    + spec_lines_from(text@, n as int));
            }
            i = n;
        }
    }
    out
}

/// The view of a list of strings.
pub open spec fn spec_strings(v: Seq<String>) -> Seq<Seq<char>> {
    v.map_values(|s: String| s@)
}

/// Character-wise string equality.
pub fn str_eq(a: &str, b: &str) -> (r: bool)
    ensures
        r == (a@ == b@),
{
    let n = a.unicode_len();
    let m = b.unicode_len();
    if n != m {
        return false;
    }
    let mut i: usize = 0;
    while i < n
        invariant
            i <= n,
            n == a@.len(),
            n == b@.len(),
            forall|j: int| 0 <= j < i ==> a@[j] == b@[j],
        decreases n - i,
    {
        if a.get_char(i) != b.get_char(i) {
            return false;
        }
        i += 1;
    }
    proof {
        assert(a@ =~= b@);
    }
    true
}

/// Looks `key` up among the extracted argument pairs; the last pair with
/// that key wins, matching [`spec_lookup`].
pub fn lookup_arg(args: &Vec<Arg>, key: &str) -> (r: Option<String>)
    ensures
        match r {
            Some(v) => spec_lookup(args@.map_values(|a: Arg| a@), key@) == Some(v@),
            None => spec_lookup(args@.map_values(|a: Arg| a@), key@) is None,
        },
{
    let ghost all = args@.map_values(|a: Arg| a@);
    let mut i: usize = args.len();
    proof {
        assert(all.take(i as int) =~= all);
    }
    while i > 0
        invariant
            i <= args.len(),
            all == args@.map_values(|a: Arg| a@),
            spec_lookup(all, key@) == spec_lookup(all.take(i as int), key@),
        decreases i,
    {
        i -= 1;
        if str_eq(args[i].key.as_str(), key) {
            return Some(args[i].value.clone());
        }
        proof {
            assert(all.take(i + 1 as int).drop_last() =~= all.take(i as int));
        }
    }
    None
}

} // verus!
