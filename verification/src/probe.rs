//! What all probes share: the sentinel that stands for a value nobody could
//! determine.

use crate::memory::MemoryReading;
use crate::text::{chars_of, opt_text};
use vstd::prelude::*;

verus! {

/// The text shown for a value that could not be determined.
pub open spec fn unknown() -> Seq<char> {
    "Unknown"@
}

/// `s`, or the sentinel where `s` is empty: a probe never shows nothing.
pub open spec fn or_unknown(s: Seq<char>) -> Seq<char> {
    if s.len() == 0 {
        unknown()
    } else {
        s
    }
}

/// The sentinel is seven characters long, and what `or_unknown` gives is
/// never empty.
pub proof fn lemma_or_unknown_nonempty(s: Seq<char>)
    ensures
        unknown().len() == 7,
        or_unknown(s).len() > 0,
{
    reveal_strlit("Unknown");
}

/// The characters of `s`, or of the sentinel where `s` is empty.
pub fn known_or_unknown(s: Vec<char>) -> (r: Vec<char>)
    ensures
        r@ == or_unknown(s@),
        r@.len() > 0,
{
    proof {
        lemma_or_unknown_nonempty(s@);
    }
    if s.len() == 0 {
        chars_of("Unknown")
    } else {
        s
    }
}

/// What stands for a reading that failed: the sentinel and the cause.
pub open spec fn failure_text(cause: Seq<char>) -> Seq<char> {
    "Unknown: "@ + cause
}

/// A reading, with the cause of its failure as characters.
pub open spec fn cause_text<T>(reading: Result<T, String>) -> Result<T, Seq<char>> {
    match reading {
        Ok(r) => Ok(r),
        Err(cause) => Err(cause@),
    }
}

/// One place where a probe looks for a fact. Whoever consults a source
/// treats it as optional: a missing file, a command that does not start or
/// a request that fails is an absent answer, never an error.
#[derive(Debug, PartialEq, Eq)]
pub enum EvidenceSource {
    /// A text file, read if it exists.
    File { path: String },
    /// A command and its arguments; what it prints is the answer.
    Command { program: String, arguments: Vec<String> },
    /// A single request for a URL; the body of a successful response is
    /// the answer.
    Lookup { url: String },
    /// An environment variable.
    Variable { name: String },
    /// A directory; the number of its entries is the answer.
    Directory { path: String },
    /// A program that may stand at one of several paths; the first path at
    /// which a file exists is the answer.
    Program { paths: Vec<String> },
    /// The memory counters of the machine.
    MemoryCounters,
    /// The seconds since the machine started.
    UptimeCounter,
}

/// What an `EvidenceSource` stands for.
pub enum Source {
    File { path: Seq<char> },
    Command { program: Seq<char>, arguments: Seq<Seq<char>> },
    Lookup { url: Seq<char> },
    Variable { name: Seq<char> },
    Directory { path: Seq<char> },
    Program { paths: Seq<Seq<char>> },
    MemoryCounters,
    UptimeCounter,
}

/// The character sequences that the strings of `v` hold.
pub open spec fn strings(v: Seq<String>) -> Seq<Seq<char>> {
    v.map_values(|s: String| s@)
}

impl View for EvidenceSource {
    type V = Source;

    open spec fn view(&self) -> Source {
        match self {
            EvidenceSource::File { path } => Source::File { path: path@ },
            EvidenceSource::Command { program, arguments } => Source::Command {
                program: program@,
                arguments: strings(arguments@),
            },
            EvidenceSource::Lookup { url } => Source::Lookup { url: url@ },
            EvidenceSource::Variable { name } => Source::Variable { name: name@ },
            EvidenceSource::Directory { path } => Source::Directory { path: path@ },
            EvidenceSource::Program { paths } => Source::Program { paths: strings(paths@) },
            EvidenceSource::MemoryCounters => Source::MemoryCounters,
            EvidenceSource::UptimeCounter => Source::UptimeCounter,
        }
    }
}

/// The file at `path` as a source.
pub fn file(path: &str) -> (source: EvidenceSource)
    ensures
        source@ == (Source::File { path: path@ }),
{
    EvidenceSource::File { path: path.to_owned() }
}

/// The directory at `path` as a source.
pub fn directory(path: &str) -> (source: EvidenceSource)
    ensures
        source@ == (Source::Directory { path: path@ }),
{
    EvidenceSource::Directory { path: path.to_owned() }
}

/// The environment variable `name` as a source.
pub fn variable(name: &str) -> (source: EvidenceSource)
    ensures
        source@ == (Source::Variable { name: name@ }),
{
    EvidenceSource::Variable { name: name.to_owned() }
}

/// The URL `url` as a source.
pub fn lookup(url: &str) -> (source: EvidenceSource)
    ensures
        source@ == (Source::Lookup { url: url@ }),
{
    EvidenceSource::Lookup { url: url.to_owned() }
}

/// The command `program`, run without arguments, as a source.
pub fn command(program: &str) -> (source: EvidenceSource)
    ensures
        source@ == (Source::Command { program: program@, arguments: Seq::empty() }),
{
    let arguments: Vec<String> = Vec::new();
    assert(strings(arguments@) == Seq::<Seq<char>>::empty());
    EvidenceSource::Command { program: program.to_owned(), arguments }
}

/// The command `program`, run with one argument, as a source.
pub fn command_with(program: &str, argument: &str) -> (source: EvidenceSource)
    ensures
        source@ == (Source::Command { program: program@, arguments: seq![argument@] }),
{
    let mut arguments: Vec<String> = Vec::new();
    arguments.push(argument.to_owned());
    assert(strings(arguments@) == seq![argument@]);
    EvidenceSource::Command { program: program.to_owned(), arguments }
}

/// The command `program`, run with two arguments, as a source.
pub fn command_with_two(program: &str, first: &str, second: &str) -> (source: EvidenceSource)
    ensures
        source@ == (Source::Command { program: program@, arguments: seq![first@, second@] }),
{
    let mut arguments: Vec<String> = Vec::new();
    arguments.push(first.to_owned());
    arguments.push(second.to_owned());
    assert(strings(arguments@) == seq![first@, second@]);
    EvidenceSource::Command { program: program.to_owned(), arguments }
}

/// What consulting a source yielded.
#[derive(Debug, PartialEq, Eq)]
pub enum Answer {
    /// Nothing: the file is missing, the command did not run, the variable
    /// is not set, the request failed, no program was found.
    Absent,
    /// A text: a file's content, a command's output, a variable's value,
    /// a response's body, a program's path.
    Text(String),
    /// A number: the entries of a directory, the seconds of uptime.
    Count(u64),
    /// The memory counters.
    Memory(MemoryReading),
    /// A failure, with its cause in words.
    Failed(String),
}

/// What an `Answer` stands for.
pub enum Reply {
    Absent,
    Text(Seq<char>),
    Count(u64),
    Memory(MemoryReading),
    Failed(Seq<char>),
}

impl View for Answer {
    type V = Reply;

    open spec fn view(&self) -> Reply {
        match self {
            Answer::Absent => Reply::Absent,
            Answer::Text(text) => Reply::Text(text@),
            Answer::Count(n) => Reply::Count(*n),
            Answer::Memory(reading) => Reply::Memory(*reading),
            Answer::Failed(cause) => Reply::Failed(cause@),
        }
    }
}

/// What the answers of `answers` stand for, in order.
pub open spec fn replies(answers: Seq<Answer>) -> Seq<Reply> {
    answers.map_values(|a: Answer| a@)
}

/// The text of the `i`-th reply, if there is an `i`-th reply and it is a
/// text.
pub open spec fn text_at(replies: Seq<Reply>, i: int) -> Option<Seq<char>> {
    if 0 <= i < replies.len() {
        match replies[i] {
            Reply::Text(text) => Some(text),
            _ => None,
        }
    } else {
        None
    }
}

/// The text of the `i`-th answer, if there is one.
pub fn answer_text(answers: &Vec<Answer>, i: usize) -> (r: Option<String>)
    ensures
        opt_text(r) == text_at(replies(answers@), i as int),
{
    if i < answers.len() {
        match &answers[i] {
            Answer::Text(text) => Some(text.clone()),
            _ => None,
        }
    } else {
        None
    }
}

/// What a probe wants next: a source consulted, or nothing more.
#[derive(Debug, PartialEq, Eq)]
pub enum Step {
    /// Consult this source and come back with its answer added to the
    /// answers given so far.
    Ask(EvidenceSource),
    /// The probe is done; this is what it shows.
    Done(String),
    /// The probe cannot go on, and the run with it; this says why.
    Abort(String),
}

/// What a `Step` stands for.
pub enum Move {
    Ask(Source),
    Done(Seq<char>),
    Abort(Seq<char>),
}

impl View for Step {
    type V = Move;

    open spec fn view(&self) -> Move {
        match self {
            Step::Ask(source) => Move::Ask(source@),
            Step::Done(text) => Move::Done(text@),
            Step::Abort(reason) => Move::Abort(reason@),
        }
    }
}

} // verus!
