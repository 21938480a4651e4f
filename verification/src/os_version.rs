//! The operating-system version probe.

use crate::os_family::{classify_os, family_of, Family, OsFamily};
use crate::probe::{
    answer_text, command_with, file, replies, text_at, Answer, Move, Reply, Source, Step,
};
use crate::text::{
    after_first, append, append_str, chars_of, chars_or_empty, fields_of,
    first_line_starting_with, first_starting_with, lines_of, opt_text, rest_after, slice,
    split_fields, split_lines, string_of, text_or_empty, texts, trim, trimmed,
};
use vstd::prelude::*;

verus! {

/// What was gathered about the operating system's version. A field is
/// `None` where its source was absent, unreadable or never consulted.
#[derive(Debug)]
pub struct OsVersionEvidence {
    /// Content of the kernel's version file.
    pub kernel_version: Option<String>,
    /// Content of the distribution's release file.
    pub os_release: Option<String>,
    /// The system's product name, as its version tool prints it.
    pub product_name: Option<String>,
    /// The system's product version, as its version tool prints it.
    pub product_version: Option<String>,
    /// The system's build version, as its version tool prints it.
    pub build_version: Option<String>,
}

/// What an `OsVersionEvidence` stands for.
pub struct OsVersionFacts {
    pub kernel_version: Option<Seq<char>>,
    pub os_release: Option<Seq<char>>,
    pub product_name: Option<Seq<char>>,
    pub product_version: Option<Seq<char>>,
    pub build_version: Option<Seq<char>>,
}

impl View for OsVersionEvidence {
    type V = OsVersionFacts;

    open spec fn view(&self) -> OsVersionFacts {
        OsVersionFacts {
            kernel_version: opt_text(self.kernel_version),
            os_release: opt_text(self.os_release),
            product_name: opt_text(self.product_name),
            product_version: opt_text(self.product_version),
            build_version: opt_text(self.build_version),
        }
    }
}

impl OsVersionFacts {
    /// No evidence at all.
    pub open spec fn none() -> OsVersionFacts {
        OsVersionFacts {
            kernel_version: None,
            os_release: None,
            product_name: None,
            product_version: None,
            build_version: None,
        }
    }
}

impl OsVersionEvidence {
    /// No evidence at all.
    pub fn new() -> (e: OsVersionEvidence)
        ensures
            e@ == OsVersionFacts::none(),
    {
        OsVersionEvidence {
            kernel_version: None,
            os_release: None,
            product_name: None,
            product_version: None,
            build_version: None,
        }
    }
}

/// The kernel's release in the content of its version file: the third
/// field, counted by white space, of the first line. It is empty where the
/// file has no line or the line has fewer fields.
pub open spec fn kernel_release(kernel_version: Seq<char>) -> Seq<char> {
    let lines = lines_of(kernel_version);
    if lines.len() > 0 && fields_of(lines[0]).len() > 2 {
        fields_of(lines[0])[2]
    } else {
        Seq::empty()
    }
}

/// `s` without the double quotes around it: without one at its start and
/// one at its end, where both stand there. Quotes inside stay.
pub open spec fn unquoted(s: Seq<char>) -> Seq<char> {
    if s.len() >= 2 && s[0] == '"' && s.last() == '"' {
        s.subrange(1, s.len() - 1)
    } else {
        s
    }
}

/// The distribution's name in one line of its release file: what follows
/// `PRETTY_NAME=`, trimmed, without the quotes around it, and trimmed once
/// more. A line without `PRETTY_NAME=` gives the empty name.
pub open spec fn unquoted_name(line: Seq<char>) -> Seq<char> {
    match after_first(line, "PRETTY_NAME="@) {
        Some(value) => trimmed(unquoted(trimmed(value))),
        None => Seq::empty(),
    }
}

/// The distribution's name in the content of its release file, taken from
/// the first line that begins with `PRETTY_NAME`. It is empty where the
/// file has no such line.
pub open spec fn pretty_name(os_release: Seq<char>) -> Seq<char> {
    match first_starting_with(lines_of(os_release), "PRETTY_NAME"@) {
        Some(line) => unquoted_name(line),
        None => Seq::empty(),
    }
}

/// The version of a Linux system: the distribution's name and the kernel's
/// release.
pub open spec fn linux_version(f: OsVersionFacts) -> Seq<char> {
    pretty_name(text_or_empty(f.os_release)) + " (Linux "@ + kernel_release(
        text_or_empty(f.kernel_version),
    ) + ")"@
}

/// The version of a Darwin system: product name, product version and, in
/// brackets, the build version.
pub open spec fn darwin_version(f: OsVersionFacts) -> Seq<char> {
    trimmed(text_or_empty(f.product_name)) + " "@ + trimmed(text_or_empty(f.product_version))
        + " ("@ + trimmed(text_or_empty(f.build_version)) + ")"@
}

/// The version of the operating system, as displayed.
pub open spec fn os_version_text(family: Family, f: OsVersionFacts) -> Seq<char> {
    match family {
        Family::Linux => linux_version(f),
        Family::Darwin => darwin_version(f),
        Family::Unknown(name) => "Unknown "@ + name,
    }
}

/// The version text is never empty.
pub proof fn lemma_os_version_nonempty(family: Family, f: OsVersionFacts)
    ensures
        os_version_text(family, f).len() > 0,
{
    reveal_strlit(" (Linux ");
    reveal_strlit(" (");
    reveal_strlit("Unknown ");
}

/// The kernel's release in the content of its version file.
pub fn read_kernel_release(kernel_version: &Vec<char>) -> (r: Vec<char>)
    ensures
        r@ == kernel_release(kernel_version@),
{
    let lines = split_lines(kernel_version);
    if lines.len() == 0 {
        return Vec::new();
    }
    assert(texts(lines@)[0] == lines[0]@);
    let mut fields = split_fields(&lines[0]);
    if fields.len() > 2 {
        assert(texts(fields@)[2] == fields[2]@);
        fields.swap_remove(2)
    } else {
        Vec::new()
    }
}

/// `s` without the double quotes around it.
pub fn unquote(s: &Vec<char>) -> (r: Vec<char>)
    ensures
        r@ == unquoted(s@),
{
    let n = s.len();
    if n >= 2 && s[0] == '"' && s[n - 1] == '"' {
        slice(s, 1, n - 1)
    } else {
        assert(s@.subrange(0, n as int) == s@);
        slice(s, 0, n)
    }
}

/// The distribution's name in one line of its release file.
pub fn read_unquoted_name(line: &Vec<char>) -> (r: Vec<char>)
    ensures
        r@ == unquoted_name(line@),
{
    match rest_after(line, &chars_of("PRETTY_NAME=")) {
        Some(value) => trim(&unquote(&trim(&value))),
        None => Vec::new(),
    }
}

/// The distribution's name in the content of its release file.
pub fn read_pretty_name(os_release: &Vec<char>) -> (r: Vec<char>)
    ensures
        r@ == pretty_name(os_release@),
{
    let lines = split_lines(os_release);
    match first_line_starting_with(&lines, &chars_of("PRETTY_NAME")) {
        Some(i) => read_unquoted_name(&lines[i]),
        None => Vec::new(),
    }
}

/// The version of the operating system, as displayed. `os` is the kernel's
/// name.
pub fn get_os_version(os: &str, evidence: &OsVersionEvidence) -> (version: String)
    ensures
        version@ == os_version_text(family_of(os@), evidence@),
        version@.len() > 0,
{
    proof {
        lemma_os_version_nonempty(family_of(os@), evidence@);
    }
    let mut out: Vec<char> = Vec::new();
    match classify_os(os) {
        OsFamily::Linux => {
            let name = read_pretty_name(&chars_or_empty(&evidence.os_release));
            let release = read_kernel_release(&chars_or_empty(&evidence.kernel_version));
            append(&mut out, &name);
            append_str(&mut out, " (Linux ");
            append(&mut out, &release);
            append_str(&mut out, ")");
        },
        OsFamily::Darwin => {
            append(&mut out, &trim(&chars_or_empty(&evidence.product_name)));
            append_str(&mut out, " ");
            append(&mut out, &trim(&chars_or_empty(&evidence.product_version)));
            append_str(&mut out, " (");
            append(&mut out, &trim(&chars_or_empty(&evidence.build_version)));
            append_str(&mut out, ")");
        },
        OsFamily::Unknown(name) => {
            append_str(&mut out, "Unknown ");
            append_str(&mut out, name.as_str());
        },
    }
    string_of(&out)
}

/// The sources of the version, in the order in which they are consulted:
/// on Linux the kernel's version file and the distribution's release file,
/// on Darwin the version tool, asked for name, version and build.
pub open spec fn os_version_sources(family: Family) -> Seq<Source> {
    match family {
        Family::Linux => seq![
            Source::File { path: "/proc/version"@ },
            Source::File { path: "/etc/os-release"@ },
        ],
        Family::Darwin => seq![
            Source::Command { program: "sw_vers"@, arguments: seq!["-productName"@] },
            Source::Command { program: "sw_vers"@, arguments: seq!["-productVersion"@] },
            Source::Command { program: "sw_vers"@, arguments: seq!["-buildVersion"@] },
        ],
        Family::Unknown(_) => Seq::empty(),
    }
}

/// The evidence that the replies hold, each reply being the answer of the
/// source at its place.
pub open spec fn os_version_facts(family: Family, replies: Seq<Reply>) -> OsVersionFacts {
    match family {
        Family::Linux => OsVersionFacts {
            kernel_version: text_at(replies, 0),
            os_release: text_at(replies, 1),
            ..OsVersionFacts::none()
        },
        Family::Darwin => OsVersionFacts {
            product_name: text_at(replies, 0),
            product_version: text_at(replies, 1),
            build_version: text_at(replies, 2),
            ..OsVersionFacts::none()
        },
        Family::Unknown(_) => OsVersionFacts::none(),
    }
}

/// What the version probe does after the replies so far: it asks the
/// next source that has no reply yet, and shows the version once all have
/// one.
pub open spec fn os_version_move(family: Family, replies: Seq<Reply>) -> Move {
    if replies.len() < os_version_sources(family).len() {
        Move::Ask(os_version_sources(family)[replies.len() as int])
    } else {
        Move::Done(os_version_text(family, os_version_facts(family, replies)))
    }
}

/// The next step of the version probe, given the answers so far. `os` is
/// the kernel's name.
pub fn os_version_step(os: &str, answers: &Vec<Answer>) -> (step: Step)
    ensures
        step@ == os_version_move(family_of(os@), replies(answers@)),
{
    let n = answers.len();
    let mut evidence = OsVersionEvidence::new();
    match classify_os(os) {
        OsFamily::Linux => {
            if n == 0 {
                return Step::Ask(file("/proc/version"));
            } else if n == 1 {
                return Step::Ask(file("/etc/os-release"));
            }
            evidence.kernel_version = answer_text(answers, 0);
            evidence.os_release = answer_text(answers, 1);
        },
        OsFamily::Darwin => {
            if n == 0 {
                return Step::Ask(command_with("sw_vers", "-productName"));
            } else if n == 1 {
                return Step::Ask(command_with("sw_vers", "-productVersion"));
            } else if n == 2 {
                return Step::Ask(command_with("sw_vers", "-buildVersion"));
            }
            evidence.product_name = answer_text(answers, 0);
            evidence.product_version = answer_text(answers, 1);
            evidence.build_version = answer_text(answers, 2);
        },
        OsFamily::Unknown(_) => {},
    }
    Step::Done(get_os_version(os, &evidence))
}

} // verus!
