//! The shell probe: the user's shell and, where the shell tells it, its
//! version.

use crate::probe::{
    answer_text, command_with, known_or_unknown, lemma_or_unknown_nonempty, or_unknown, replies,
    text_at, variable, Answer, EvidenceSource, Move, Reply, Source, Step,
};
use crate::text::{
    after_first, append, before_first, chars_of, lines_of, opt_chars, opt_text, part_before,
    pieces, rest_after, same, split, split_lines, string_of, texts,
};
use vstd::prelude::*;

verus! {

/// The shell's name: the last segment of its path.
pub open spec fn shell_name(path: Seq<char>) -> Seq<char> {
    pieces(path, "/"@).last()
}

/// Whether a shell is one of those that are shown by name alone, without
/// being asked for a version.
pub open spec fn is_plain_shell(name: Seq<char>) -> bool {
    name == "sh"@ || name == "ash"@ || name == "dash"@ || name == "es"@
}

/// The version in what bash prints: in the first line, what follows the
/// first `version ` up to the next ` (`, or up to the line's end.
pub open spec fn bash_version(output: Seq<char>) -> Option<Seq<char>> {
    if lines_of(output).len() > 0 {
        match after_first(lines_of(output)[0], "version "@) {
            Some(rest) => Some(before_first(rest, " ("@)),
            None => None,
        }
    } else {
        None
    }
}

/// `s`, or `fallback` where `s` is empty.
pub open spec fn or_else(s: Seq<char>, fallback: Seq<char>) -> Seq<char> {
    if s.len() == 0 {
        fallback
    } else {
        s
    }
}

/// What is shown for a shell that is asked for its version. Bash is shown
/// as `bash` and its version; zsh as what it prints up to the first ` (`;
/// any other shell as its name and all that it prints, or as its name
/// alone where it prints just that. Where the shell gave no answer, or
/// none that holds a version, its name stands alone.
pub open spec fn versioned_shell(name: Seq<char>, output: Option<Seq<char>>) -> Seq<char> {
    match output {
        None => name,
        Some(out) => if name == "bash"@ {
            match bash_version(out) {
                Some(version) => "bash "@ + version,
                None => name,
            }
        } else if name == "zsh"@ {
            or_else(before_first(out, " ("@), name)
        } else if name == out {
            name
        } else {
            name + seq![' '] + out
        },
    }
}

/// The shell, as displayed, given the path of the shell and what it
/// printed when asked for its version: a plain shell by its name, any
/// other as a shell with a version, and the sentinel where that is empty.
pub open spec fn shell_text(path: Seq<char>, output: Option<Seq<char>>) -> Seq<char> {
    if is_plain_shell(shell_name(path)) {
        shell_name(path)
    } else {
        or_unknown(versioned_shell(shell_name(path), output))
    }
}

/// The shell is never shown as nothing.
pub proof fn lemma_shell_nonempty(path: Seq<char>, output: Option<Seq<char>>)
    ensures
        shell_text(path, output).len() > 0,
{
    reveal_strlit("sh");
    reveal_strlit("ash");
    reveal_strlit("dash");
    reveal_strlit("es");
    lemma_or_unknown_nonempty(versioned_shell(shell_name(path), output));
}

/// How to ask the shell at `path` for its version.
pub open spec fn version_query(path: Seq<char>) -> Source {
    Source::Command { program: path, arguments: seq!["--version"@] }
}

fn shell_name_chars(path: &str) -> (name: Vec<char>)
    ensures
        name@ == shell_name(path@),
{
    let mut parts = split(&chars_of(path), &chars_of("/"));
    let last = parts.len() - 1;
    assert(texts(parts@).last() == parts[last as int]@);
    parts.swap_remove(last)
}

fn is_plain(name: &Vec<char>) -> (r: bool)
    ensures
        r == is_plain_shell(name@),
{
    same(name, &chars_of("sh")) || same(name, &chars_of("ash")) || same(name, &chars_of("dash"))
        || same(name, &chars_of("es"))
}

/// The name of the shell at `path`.
pub fn shell_name_of(path: &str) -> (name: String)
    ensures
        name@ == shell_name(path@),
{
    string_of(&shell_name_chars(path))
}

/// The command that asks the shell at `path` for its version, or `None`
/// where the shell is shown by name alone.
pub fn shell_version_query(path: &str) -> (query: Option<EvidenceSource>)
    ensures
        is_plain_shell(shell_name(path@)) ==> query is None,
        !is_plain_shell(shell_name(path@)) ==> query is Some && query->0@ == version_query(path@),
{
    if is_plain(&shell_name_chars(path)) {
        None
    } else {
        Some(command_with(path, "--version"))
    }
}

/// The version in what bash printed, if it holds one.
pub fn read_bash_version(output: &Vec<char>) -> (r: Option<Vec<char>>)
    ensures
        opt_chars(r) == bash_version(output@),
{
    let lines = split_lines(output);
    if lines.len() == 0 {
        return None;
    }
    assert(texts(lines@)[0] == lines[0]@);
    match rest_after(&lines[0], &chars_of("version ")) {
        Some(rest) => Some(part_before(&rest, &chars_of(" ("))),
        None => None,
    }
}

/// The shell, as displayed. `shell_path` is the path of the user's shell;
/// `version_output` is what the shell printed when asked for its version,
/// `None` where it was not asked or gave no answer.
pub fn get_shell(shell_path: &str, version_output: &Option<String>) -> (shell: String)
    ensures
        shell@ == shell_text(shell_path@, opt_text(*version_output)),
        shell@.len() > 0,
{
    proof {
        lemma_shell_nonempty(shell_path@, opt_text(*version_output));
    }
    let name = shell_name_chars(shell_path);
    if is_plain(&name) {
        return string_of(&name);
    }
    let shown = match version_output {
        None => name,
        Some(printed) => {
            let out = chars_of(printed.as_str());
            if same(&name, &chars_of("bash")) {
                match read_bash_version(&out) {
                    Some(version) => {
                        let mut r = chars_of("bash ");
                        append(&mut r, &version);
                        r
                    },
                    None => name,
                }
            } else if same(&name, &chars_of("zsh")) {
                let head = part_before(&out, &chars_of(" ("));
                if head.len() == 0 {
                    name
                } else {
                    head
                }
            } else if same(&name, &out) {
                name
            } else {
                let mut r = name;
                r.push(' ');
                append(&mut r, &out);
                r
            }
        },
    };
    string_of(&known_or_unknown(shown))
}

/// What the shell probe does after the replies so far. It asks for the
/// environment's shell variable; without a shell the run cannot go on.
/// A shell that is shown by name alone is shown at once; any other is
/// asked for its version first.
pub open spec fn shell_move(replies: Seq<Reply>) -> Move {
    if replies.len() == 0 {
        Move::Ask(Source::Variable { name: "SHELL"@ })
    } else {
        match text_at(replies, 0) {
            None => Move::Abort("the environment names no shell: SHELL is not set"@),
            Some(path) => if replies.len() == 1 && !is_plain_shell(shell_name(path)) {
                Move::Ask(version_query(path))
            } else {
                Move::Done(shell_text(path, text_at(replies, 1)))
            },
        }
    }
}

/// The next step of the shell probe, given the answers so far.
pub fn shell_step(answers: &Vec<Answer>) -> (step: Step)
    ensures
        step@ == shell_move(replies(answers@)),
{
    if answers.len() == 0 {
        return Step::Ask(variable("SHELL"));
    }
    match answer_text(answers, 0) {
        None => Step::Abort("the environment names no shell: SHELL is not set".to_owned()),
        Some(path) => {
            if answers.len() == 1 {
                match shell_version_query(path.as_str()) {
                    Some(query) => {
                        return Step::Ask(query);
                    },
                    None => {},
                }
            }
            Step::Done(get_shell(path.as_str(), &answer_text(answers, 1)))
        },
    }
}

} // verus!
