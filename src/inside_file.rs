//! What a file's first line says about it: the interpreter named after `#!`.
use vstd::prelude::*;

use crate::text::{
    chars_of, contains, find, first_occurrence, is_white, is_white_space, matches_at, opt_text,
    starts_with, trim, trim_end_from, trim_start_from,
};

verus! {

/// The script kinds that a shebang line is recognised as.
#[derive(Debug, Clone, Copy, PartialEq, Eq)]
pub enum ScriptType {
    Bash,
    Tcsh,
    Csh,
    Yash,
    Ash,
    Ksh,
    Zsh,
    Sh,
    Python,
}

impl ScriptType {
    /// The display name of the script kind.
    pub open spec fn name(self) -> Seq<char> {
        match self {
            ScriptType::Bash => "Bourne-Again shell"@,
            ScriptType::Tcsh => "Tenex C shell"@,
            ScriptType::Csh => "C shell"@,
            ScriptType::Yash => "Yet-Another shell"@,
            ScriptType::Ash => "Neil Brown's ash"@,
            ScriptType::Ksh => "Korn shell"@,
            ScriptType::Zsh => "Paul Falstad's zsh"@,
            ScriptType::Sh => "POSIX shell"@,
            ScriptType::Python => "Python"@,
        }
    }

    pub fn as_str(self) -> (r: &'static str)
        ensures
            r@ == self.name(),
    {
        match self {
            ScriptType::Bash => "Bourne-Again shell",
            ScriptType::Tcsh => "Tenex C shell",
            ScriptType::Csh => "C shell",
            ScriptType::Yash => "Yet-Another shell",
            ScriptType::Ash => "Neil Brown's ash",
            ScriptType::Ksh => "Korn shell",
            ScriptType::Zsh => "Paul Falstad's zsh",
            ScriptType::Sh => "POSIX shell",
            ScriptType::Python => "Python",
        }
    }
}

/// The script kind whose pattern the interpreter path holds. The patterns are
/// tried in this order, so that a longer name is found before a name that it
/// contains ("bash" before "ash" and "sh").
pub open spec fn script_type_of(interpreter: Seq<char>) -> Option<ScriptType> {
    if contains(interpreter, "bash"@) {
        Some(ScriptType::Bash)
    } else if contains(interpreter, "tcsh"@) {
        Some(ScriptType::Tcsh)
    } else if contains(interpreter, "csh"@) {
        Some(ScriptType::Csh)
    } else if contains(interpreter, "yash"@) {
        Some(ScriptType::Yash)
    } else if contains(interpreter, "ash"@) {
        Some(ScriptType::Ash)
    } else if contains(interpreter, "ksh"@) {
        Some(ScriptType::Ksh)
    } else if contains(interpreter, "zsh"@) {
        Some(ScriptType::Zsh)
    } else if contains(interpreter, "sh"@) {
        Some(ScriptType::Sh)
    } else if contains(interpreter, "python"@) {
        Some(ScriptType::Python)
    } else {
        None
    }
}

/// The name shown for an interpreter path: that of its script kind, or the
/// path itself where no pattern matches.
pub open spec fn display_name(interpreter: Seq<char>) -> Seq<char> {
    match script_type_of(interpreter) {
        Some(t) => t.name(),
        None => interpreter,
    }
}

fn holds(interpreter: &Vec<char>, pattern: &str) -> (r: bool)
    ensures
        r == contains(interpreter@, pattern@),
{
    let p = chars_of(pattern);
    find(interpreter, &p).is_some()
}

fn script_type(interpreter: &Vec<char>) -> (r: Option<ScriptType>)
    ensures
        r == script_type_of(interpreter@),
{
    if holds(interpreter, "bash") {
        Some(ScriptType::Bash)
    } else if holds(interpreter, "tcsh") {
        Some(ScriptType::Tcsh)
    } else if holds(interpreter, "csh") {
        Some(ScriptType::Csh)
    } else if holds(interpreter, "yash") {
        Some(ScriptType::Yash)
    } else if holds(interpreter, "ash") {
        Some(ScriptType::Ash)
    } else if holds(interpreter, "ksh") {
        Some(ScriptType::Ksh)
    } else if holds(interpreter, "zsh") {
        Some(ScriptType::Zsh)
    } else if holds(interpreter, "sh") {
        Some(ScriptType::Sh)
    } else if holds(interpreter, "python") {
        Some(ScriptType::Python)
    } else {
        None
    }
}

/// The display name for an interpreter path (see `display_name`).
pub fn evaluate_shebang(shebang: &str) -> (r: String)
    ensures
        r@ == display_name(shebang@),
{
    let v = chars_of(shebang);
    match script_type(&v) {
        Some(t) => t.as_str().to_owned(),
        None => shebang.to_owned(),
    }
}

/// What comes before the first white space of `s` (all of `s` where it has
/// none).
pub open spec fn first_token(s: Seq<char>) -> Seq<char>
    decreases s.len(),
{
    if s.len() == 0 || is_white_space(s[0]) {
        Seq::empty()
    } else {
        seq![s[0]] + first_token(s.drop_first())
    }
}

/// What follows the last white space of `s` (all of `s` where it has none).
pub open spec fn last_token(s: Seq<char>) -> Seq<char>
    decreases s.len(),
{
    if s.len() == 0 || is_white_space(s.last()) {
        Seq::empty()
    } else {
        last_token(s.drop_last()).push(s.last())
    }
}

/// The last white-space-separated word of `s` is exactly `env`.
pub open spec fn ends_with_env_word(s: Seq<char>) -> bool {
    last_token(s) == "env"@
}

/// The interpreter named by the text of a shebang line after the marker.
/// Without an `env` indirection it is the first word. With one (the text holds
/// `/env ` and does not end in the word `env`), it is all that follows the
/// first `/env `: the program that `env` runs, with its arguments.
pub open spec fn interpreter_of(body: Seq<char>) -> Seq<char> {
    if !contains(body, "/env "@) || ends_with_env_word(body) {
        first_token(body)
    } else {
        body.skip(first_occurrence(body, "/env "@) + "/env "@.len())
    }
}

/// What a file whose first line is `line` is shown as: nothing where the line
/// does not start with `#!`; else the display name of its interpreter, read
/// once the two-character marker `#!` and the surrounding white space are
/// dropped.
pub open spec fn shebang_type(line: Seq<char>) -> Option<Seq<char>> {
    if starts_with(line, "#!"@) {
        Some(display_name(interpreter_of(trim(line.skip("#!"@.len() as int)))))
    } else {
        None
    }
}

/// Where the first word of `s` ends.
fn first_token_end(s: &Vec<char>) -> (i: usize)
    ensures
        i <= s.len(),
        first_token(s@) == s@.take(i as int),
{
    let mut i: usize = 0;
    assert(s@.skip(0) =~= s@);
    assert(s@.take(0) =~= Seq::<char>::empty());
    while i < s.len() && !is_white(s[i])
        invariant
            i <= s.len(),
            first_token(s@) == s@.take(i as int) + first_token(s@.skip(i as int)),
        decreases s.len() - i,
    {
        assert(s@.skip(i as int).drop_first() =~= s@.skip(i + 1));
        assert(s@.take(i as int) + seq![s@[i as int]] =~= s@.take(i + 1));
        i = i + 1;
    }
    assert(first_token(s@.skip(i as int)) =~= Seq::<char>::empty());
    assert(s@.take(i as int) + Seq::<char>::empty() =~= s@.take(i as int));
    i
}

fn is_env_word_end(body: &Vec<char>) -> (r: bool)
    ensures
        r == ends_with_env_word(body@),
{
    let n = body.len();
    let mut j: usize = n;
    assert(body@.take(n as int) =~= body@);
    assert(body@.subrange(n as int, n as int) =~= Seq::<char>::empty());
    while j > 0 && !is_white(body[j - 1])
        invariant
            j <= n == body.len(),
            last_token(body@) == last_token(body@.take(j as int)) + body@.subrange(
                j as int,
                n as int,
            ),
        decreases j,
    {
        assert(body@.take(j as int).drop_last() =~= body@.take(j - 1));
        assert(body@.subrange(j - 1, n as int) =~= seq![body@[j - 1]] + body@.subrange(
            j as int,
            n as int,
        ));
        j = j - 1;
    }
    assert(last_token(body@.take(j as int)) =~= Seq::<char>::empty());
    assert(last_token(body@) =~= body@.subrange(j as int, n as int));
    let env = chars_of("env");
    let r = n - j == env.len() && matches_at(body, &env, j);
    proof {
        if n - j == env.len() {
            assert(body@.subrange(j as int, j + env@.len()) =~= body@.subrange(j as int, n as int));
        }
    }
    r
}

/// The interpreter that the text after the marker names (see `interpreter_of`).
fn interpreter(body: &str) -> (r: &str)
    ensures
        r@ == interpreter_of(body@),
{
    let v = chars_of(body);
    let env = chars_of("/env ");
    let at = find(&v, &env);
    let word_end = is_env_word_end(&v);
    match at {
        Some(k) if !word_end => {
            assert(k + env.len() <= v.len());
            body.substring_char(k + env.len(), v.len())
        },
        _ => body.substring_char(0, first_token_end(&v)),
    }
}

/// The script kind named by a file's first line (see `shebang_type`); `None`
/// where the line is no shebang line.
pub fn get_type_from_shebang(first_line: &str) -> (r: Option<String>)
    ensures
        opt_text(r) == shebang_type(first_line@),
{
    let v = chars_of(first_line);
    let marker = chars_of("#!");
    if !matches_at(&v, &marker, 0) {
        return None;
    }
    let start = marker.len();
    let lo = trim_start_from(&v, start, v.len());
    assert(v@.subrange(start as int, v.len() as int) =~= v@.skip(start as int));
    let hi = trim_end_from(&v, lo, v.len());
    let body = first_line.substring_char(lo, hi);
    assert(body@ == trim(first_line@.skip("#!"@.len() as int)));
    let name = interpreter(body);
    Some(evaluate_shebang(name))
}

} // verus!
