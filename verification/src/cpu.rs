//! The processor model probe.

use crate::os_family::{classify_os, family_of, Family, OsFamily};
use crate::probe::{
    answer_text, command_with_two, file, known_or_unknown, or_unknown, replies, text_at, unknown,
    Answer, Move, Reply, Source, Step,
};
use crate::text::{
    after_first, chars_of, chars_or_empty, lines_of, opt_chars, opt_text, rest_after, split_lines,
    starts_with, starts_with_text, string_of, text_or_empty, texts, trim, trimmed,
};
use vstd::prelude::*;

verus! {

/// What was gathered about the processor. A field is `None` where its
/// source was absent, unreadable or never consulted.
#[derive(Debug)]
pub struct CpuEvidence {
    /// Content of the kernel's processor information file.
    pub cpuinfo: Option<String>,
    /// The processor's brand string, as the system control tool prints it.
    pub brand_string: Option<String>,
}

/// What a `CpuEvidence` stands for.
pub struct CpuFacts {
    pub cpuinfo: Option<Seq<char>>,
    pub brand_string: Option<Seq<char>>,
}

impl View for CpuEvidence {
    type V = CpuFacts;

    open spec fn view(&self) -> CpuFacts {
        CpuFacts { cpuinfo: opt_text(self.cpuinfo), brand_string: opt_text(self.brand_string) }
    }
}

impl CpuFacts {
    /// No evidence at all.
    pub open spec fn none() -> CpuFacts {
        CpuFacts { cpuinfo: None, brand_string: None }
    }
}

impl CpuEvidence {
    /// No evidence at all.
    pub fn new() -> (e: CpuEvidence)
        ensures
            e@ == CpuFacts::none(),
    {
        CpuEvidence { cpuinfo: None, brand_string: None }
    }
}

/// The model name that a line of the processor information file gives: the
/// line begins with `model name`, and the name is what follows its first
/// colon, trimmed. A line without a colon gives none.
pub open spec fn model_name_in(line: Seq<char>) -> Option<Seq<char>> {
    if starts_with_text(line, "model name"@) {
        match after_first(line, ":"@) {
            Some(value) => Some(trimmed(value)),
            None => None,
        }
    } else {
        None
    }
}

/// The model name that the first of `lines` to give one gives.
pub open spec fn first_model_name(lines: Seq<Seq<char>>) -> Option<Seq<char>>
    decreases lines.len(),
{
    if lines.len() == 0 {
        None
    } else if model_name_in(lines[0]) is Some {
        model_name_in(lines[0])
    } else {
        first_model_name(lines.drop_first())
    }
}

/// The processor's model, as displayed: on Linux the first model name in
/// the processor information file, on Darwin the trimmed brand string, and
/// the sentinel where that is empty or missing, and on every other system.
pub open spec fn cpu_text(family: Family, f: CpuFacts) -> Seq<char> {
    match family {
        Family::Linux => or_unknown(
            text_or_empty(first_model_name(lines_of(text_or_empty(f.cpuinfo)))),
        ),
        Family::Darwin => or_unknown(trimmed(text_or_empty(f.brand_string))),
        Family::Unknown(_) => unknown(),
    }
}

/// The model name that `line` gives, if it gives one.
pub fn read_model_name(line: &Vec<char>) -> (r: Option<Vec<char>>)
    ensures
        opt_chars(r) == model_name_in(line@),
{
    if !starts_with(line, &chars_of("model name")) {
        return None;
    }
    match rest_after(line, &chars_of(":")) {
        Some(value) => Some(trim(&value)),
        None => None,
    }
}

/// The first model name in the content of the processor information file,
/// or the empty text.
pub fn read_cpuinfo(cpuinfo: &Vec<char>) -> (r: Vec<char>)
    ensures
        r@ == text_or_empty(first_model_name(lines_of(cpuinfo@))),
{
    let lines = split_lines(cpuinfo);
    let mut i: usize = 0;
    assert(texts(lines@).skip(0) == texts(lines@));
    while i < lines.len()
        invariant
            i <= lines.len(),
            texts(lines@) == lines_of(cpuinfo@),
            first_model_name(texts(lines@)) == first_model_name(texts(lines@).skip(i as int)),
        decreases lines.len() - i,
    {
        assert(texts(lines@).skip(i as int)[0] == lines[i as int]@);
        match read_model_name(&lines[i]) {
            Some(name) => {
                return name;
            },
            None => {},
        }
        assert(texts(lines@).skip(i as int).drop_first() == texts(lines@).skip(i + 1));
        i += 1;
    }
    Vec::new()
}

/// The processor's model, as displayed. `os` is the kernel's name.
pub fn get_cpu_info(os: &str, evidence: &CpuEvidence) -> (cpu: String)
    ensures
        cpu@ == cpu_text(family_of(os@), evidence@),
        cpu@.len() > 0,
{
    let found = match classify_os(os) {
        OsFamily::Linux => read_cpuinfo(&chars_or_empty(&evidence.cpuinfo)),
        OsFamily::Darwin => trim(&chars_or_empty(&evidence.brand_string)),
        OsFamily::Unknown(_) => Vec::new(),
    };
    string_of(&known_or_unknown(found))
}

/// The source of the processor's model: on Linux the kernel's processor
/// information file, on Darwin the system control tool, asked for the
/// brand string; none on other systems.
pub open spec fn cpu_source(family: Family) -> Option<Source> {
    match family {
        Family::Linux => Some(Source::File { path: "/proc/cpuinfo"@ }),
        Family::Darwin => Some(
            Source::Command {
                program: "sysctl"@,
                arguments: seq!["-n"@, "machdep.cpu.brand_string"@],
            },
        ),
        Family::Unknown(_) => None,
    }
}

/// The evidence that the replies hold.
pub open spec fn cpu_facts(family: Family, replies: Seq<Reply>) -> CpuFacts {
    match family {
        Family::Linux => CpuFacts { cpuinfo: text_at(replies, 0), brand_string: None },
        Family::Darwin => CpuFacts { cpuinfo: None, brand_string: text_at(replies, 0) },
        Family::Unknown(_) => CpuFacts::none(),
    }
}

/// What the processor probe does after the replies so far: it asks its
/// source, if it has one, and shows the model once that is answered.
pub open spec fn cpu_move(family: Family, replies: Seq<Reply>) -> Move {
    if replies.len() == 0 && cpu_source(family) is Some {
        Move::Ask(cpu_source(family)->0)
    } else {
        Move::Done(cpu_text(family, cpu_facts(family, replies)))
    }
}

/// The next step of the processor probe, given the answers so far. `os`
/// is the kernel's name.
pub fn cpu_step(os: &str, answers: &Vec<Answer>) -> (step: Step)
    ensures
        step@ == cpu_move(family_of(os@), replies(answers@)),
{
    let n = answers.len();
    let mut evidence = CpuEvidence::new();
    match classify_os(os) {
        OsFamily::Linux => {
            if n == 0 {
                return Step::Ask(file("/proc/cpuinfo"));
            }
            evidence.cpuinfo = answer_text(answers, 0);
        },
        OsFamily::Darwin => {
            if n == 0 {
                return Step::Ask(command_with_two("sysctl", "-n", "machdep.cpu.brand_string"));
            }
            evidence.brand_string = answer_text(answers, 0);
        },
        OsFamily::Unknown(_) => {},
    }
    Step::Done(get_cpu_info(os, &evidence))
}

} // verus!
