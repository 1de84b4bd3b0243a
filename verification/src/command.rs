//! Command lines: the verb and its argument, and the arguments and reply
//! texts that have a format of their own.

use vstd::prelude::*;
use vstd::string::StringExecFns;
use crate::text::{find_from, from_chars, slice_of, to_chars, until};

verus! {

/// The commands of the protocol. `Unknown` is any other word.
#[derive(Debug, Clone, Copy, PartialEq, Eq, Structural)]
pub enum Verb {
    User,
    Pass,
    Acct,
    Cwd,
    Pwd,
    Nlst,
    List,
    Pasv,
    Retr,
    Type,
    Stor,
    Stru,
    Dele,
    Rmd,
    Mkd,
    Rnfr,
    Rnto,
    Opts,
    Port,
    Noop,
    Quit,
    Unknown,
}

/// A command line taken apart.
#[derive(Debug, PartialEq, Eq)]
pub struct Command {
    pub verb: Verb,
    pub args: String,
}

/// `s` without the line terminators at its end.
pub open spec fn trim_line(s: Seq<char>) -> Seq<char>
    decreases s.len(),
{
    if s.len() > 0 && (s.last() == '\r' || s.last() == '\n') {
        trim_line(s.drop_last())
    } else {
        s
    }
}

/// The first word of a line: what stands before its first space.
pub open spec fn verb_text(line: Seq<char>) -> Seq<char> {
    let t = trim_line(line);
    t.take(until(t, ' ') as int)
}

/// What follows the first space of a line, as it stands; empty where the
/// line has no space.
pub open spec fn args_text(line: Seq<char>) -> Seq<char> {
    let t = trim_line(line);
    if until(t, ' ') < t.len() {
        t.skip(until(t, ' ') as int + 1)
    } else {
        Seq::empty()
    }
}

/// What `str::to_uppercase` makes of a text.
pub uninterp spec fn uppercased(s: Seq<char>) -> Seq<char>;

/// `str::to_uppercase`: the text with each character replaced by its
/// upper-case form as Unicode defines it, which depends on the text alone.
#[verifier::external_body]
fn to_upper(s: &str) -> (out: String)
    ensures
        out@ == uppercased(s@),
{
    s.to_uppercase()
}

/// The command that an upper-case word names.
pub open spec fn verb_named(word: Seq<char>) -> Verb {
    if word == "USER"@ {
        Verb::User
    } else if word == "PASS"@ {
        Verb::Pass
    } else if word == "ACCT"@ {
        Verb::Acct
    } else if word == "CWD"@ {
        Verb::Cwd
    } else if word == "PWD"@ || word == "XPWD"@ {
        Verb::Pwd
    } else if word == "NLST"@ {
        Verb::Nlst
    } else if word == "LIST"@ {
        Verb::List
    } else if word == "PASV"@ {
        Verb::Pasv
    } else if word == "RETR"@ {
        Verb::Retr
    } else if word == "TYPE"@ {
        Verb::Type
    } else if word == "STOR"@ {
        Verb::Stor
    } else if word == "STRU"@ {
        Verb::Stru
    } else if word == "DELE"@ {
        Verb::Dele
    } else if word == "RMD"@ {
        Verb::Rmd
    } else if word == "MKD"@ {
        Verb::Mkd
    } else if word == "RNFR"@ {
        Verb::Rnfr
    } else if word == "RNTO"@ {
        Verb::Rnto
    } else if word == "OPTS"@ {
        Verb::Opts
    } else if word == "PORT"@ {
        Verb::Port
    } else if word == "NOOP"@ {
        Verb::Noop
    } else if word == "QUIT"@ {
        Verb::Quit
    } else {
        Verb::Unknown
    }
}

/// Whether `s` reads `word`.
pub fn is_word(s: &str, word: &str) -> (b: bool)
    ensures
        b == (s@ == word@),
{
    let a = s.to_owned();
    let b = word.to_owned();
    a == b
}

/// The command that the upper-case word `word` names.
pub fn classify(word: &str) -> (out: Verb)
    ensures
        out == verb_named(word@),
{
    if is_word(word, "USER") {
        Verb::User
    } else if is_word(word, "PASS") {
        Verb::Pass
    } else if is_word(word, "ACCT") {
        Verb::Acct
    } else if is_word(word, "CWD") {
        Verb::Cwd
    } else if is_word(word, "PWD") || is_word(word, "XPWD") {
        Verb::Pwd
    } else if is_word(word, "NLST") {
        Verb::Nlst
    } else if is_word(word, "LIST") {
        Verb::List
    } else if is_word(word, "PASV") {
        Verb::Pasv
    } else if is_word(word, "RETR") {
        Verb::Retr
    } else if is_word(word, "TYPE") {
        Verb::Type
    } else if is_word(word, "STOR") {
        Verb::Stor
    } else if is_word(word, "STRU") {
        Verb::Stru
    } else if is_word(word, "DELE") {
        Verb::Dele
    } else if is_word(word, "RMD") {
        Verb::Rmd
    } else if is_word(word, "MKD") {
        Verb::Mkd
    } else if is_word(word, "RNFR") {
        Verb::Rnfr
    } else if is_word(word, "RNTO") {
        Verb::Rnto
    } else if is_word(word, "OPTS") {
        Verb::Opts
    } else if is_word(word, "PORT") {
        Verb::Port
    } else if is_word(word, "NOOP") {
        Verb::Noop
    } else if is_word(word, "QUIT") {
        Verb::Quit
    } else {
        Verb::Unknown
    }
}

/// How the bytes of a file are represented on the data connection.
#[derive(Debug, Clone, Copy, PartialEq, Eq, Structural)]
pub enum Representation {
    Ascii,
    Binary,
}

/// The representation that an upper-case argument of TYPE names: `A` or
/// `I`, and none for anything else.
pub open spec fn representation_named(word: Seq<char>) -> Option<Representation> {
    if word == "A"@ {
        Some(Representation::Ascii)
    } else if word == "I"@ {
        Some(Representation::Binary)
    } else {
        None
    }
}

/// The representation that the upper-case word `word` names.
pub fn representation(word: &str) -> (out: Option<Representation>)
    ensures
        out == representation_named(word@),
{
    if is_word(word, "A") {
        Some(Representation::Ascii)
    } else if is_word(word, "I") {
        Some(Representation::Binary)
    } else {
        None
    }
}

/// Reads the argument of TYPE: it is put in upper case and names the
/// representation.
pub fn parse_type(args: &str) -> (out: Option<Representation>)
    ensures
        out == representation_named(uppercased(args@)),
{
    let upper = to_upper(args);
    representation(upper.as_str())
}

/// Takes a command line apart: the line terminators at its end are
/// dropped, the word before the first space is put in upper case and names
/// the verb, and what follows that space is the argument, unchanged.
pub fn parse_command(line: &str) -> (out: Command)
    ensures
        out.verb == verb_named(uppercased(verb_text(line@))),
        out.args@ == args_text(line@),
{
    let chars = to_chars(line);
    let mut end: usize = chars.len();
    assert(chars@.take(end as int) == chars@);
    while end > 0 && (chars[end - 1] == '\r' || chars[end - 1] == '\n')
        invariant
            end <= chars.len(),
            trim_line(chars@) == trim_line(chars@.take(end as int)),
        decreases end,
    {
        assert(chars@.take(end as int).drop_last() == chars@.take(end - 1));
        end -= 1;
    }
    let trimmed = slice_of(chars.as_slice(), 0, end);
    assert(trimmed@ == trim_line(line@)) by {
        assert(chars@.take(end as int) == chars@.subrange(0, end as int));
    }
    let space = find_from(trimmed.as_slice(), ' ', 0);
    assert(trimmed@.skip(0) == trimmed@);
    let word = slice_of(trimmed.as_slice(), 0, space);
    let args = if space < trimmed.len() {
        slice_of(trimmed.as_slice(), space + 1, trimmed.len())
    } else {
        Vec::new()
    };
    let upper = to_upper(from_chars(word.as_slice()).as_str());
    Command { verb: classify(upper.as_str()), args: from_chars(args.as_slice()) }
}

} // verus!
