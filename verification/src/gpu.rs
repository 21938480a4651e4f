//! The graphics adapter probe.

use crate::model::{is_mobile, names_mobile_system};
use crate::os_family::{classify_os, family_of, Family, OsFamily};
use crate::probe::{
    answer_text, command, command_with, known_or_unknown, or_unknown, replies, text_at, unknown,
    Answer, Move, Reply, Source, Step,
};
use crate::text::{
    after_first, before_first, chars_of, chars_or_empty, contains, contains_text, lines_of,
    opt_chars, opt_text, part_before, rest_after, split_lines, string_of, text_or_empty, texts,
    trim, trimmed,
};
use vstd::prelude::*;

verus! {

/// What was gathered about the graphics adapter. A field is `None` where
/// its source was absent, unreadable or never consulted.
#[derive(Debug)]
pub struct GpuEvidence {
    /// The system's product name, as its version tool prints it.
    pub os_product_name: Option<String>,
    /// The report of the display information tool.
    pub display_report: Option<String>,
    /// The list of the PCI enumeration tool.
    pub pci_devices: Option<String>,
}

/// What a `GpuEvidence` stands for.
pub struct GpuFacts {
    pub os_product_name: Option<Seq<char>>,
    pub display_report: Option<Seq<char>>,
    pub pci_devices: Option<Seq<char>>,
}

impl View for GpuEvidence {
    type V = GpuFacts;

    open spec fn view(&self) -> GpuFacts {
        GpuFacts {
            os_product_name: opt_text(self.os_product_name),
            display_report: opt_text(self.display_report),
            pci_devices: opt_text(self.pci_devices),
        }
    }
}

impl GpuFacts {
    /// No evidence at all.
    pub open spec fn none() -> GpuFacts {
        GpuFacts { os_product_name: None, display_report: None, pci_devices: None }
    }
}

impl GpuEvidence {
    /// No evidence at all.
    pub fn new() -> (e: GpuEvidence)
        ensures
            e@ == GpuFacts::none(),
    {
        GpuEvidence { os_product_name: None, display_report: None, pci_devices: None }
    }
}

/// The chipset that a line of the display report names: what follows the
/// first `Chipset Model: ` in the line, trimmed.
pub open spec fn chipset_in(line: Seq<char>) -> Option<Seq<char>> {
    match after_first(line, "Chipset Model: "@) {
        Some(name) => Some(trimmed(name)),
        None => None,
    }
}

/// The chipset that the first of `lines` to name one names.
pub open spec fn first_chipset(lines: Seq<Seq<char>>) -> Option<Seq<char>>
    decreases lines.len(),
{
    if lines.len() == 0 {
        None
    } else if chipset_in(lines[0]) is Some {
        chipset_in(lines[0])
    } else {
        first_chipset(lines.drop_first())
    }
}

/// Whether a line of the PCI list describes a display device.
pub open spec fn is_display_device(line: Seq<char>) -> bool {
    contains_text(line, "Display"@) || contains_text(line, "3D"@) || contains_text(line, "VGA"@)
}

/// What is shown of a line of the PCI list: the line up to its revision in
/// brackets, trimmed.
pub open spec fn device_line(line: Seq<char>) -> Seq<char> {
    trimmed(before_first(line, " (rev"@))
}

/// What is shown of the first of `lines` that describes a display device.
pub open spec fn first_display_device(lines: Seq<Seq<char>>) -> Option<Seq<char>>
    decreases lines.len(),
{
    if lines.len() == 0 {
        None
    } else if is_display_device(lines[0]) {
        Some(device_line(lines[0]))
    } else {
        first_display_device(lines.drop_first())
    }
}

/// The graphics adapter, as displayed. On Darwin it is the first chipset
/// of the display report, and unknown on the mobile variant; on every
/// other system it is the first line of the PCI list that describes a
/// display device. The sentinel stands where nothing, or an empty text,
/// was found.
pub open spec fn gpu_text(family: Family, f: GpuFacts) -> Seq<char> {
    match family {
        Family::Darwin => if is_mobile(f.os_product_name) {
            unknown()
        } else {
            or_unknown(text_or_empty(first_chipset(lines_of(text_or_empty(f.display_report)))))
        },
        _ => or_unknown(text_or_empty(first_display_device(lines_of(text_or_empty(f.pci_devices))))),
    }
}

/// The chipset that `line` names, if it names one.
pub fn read_chipset(line: &Vec<char>) -> (r: Option<Vec<char>>)
    ensures
        opt_chars(r) == chipset_in(line@),
{
    match rest_after(line, &chars_of("Chipset Model: ")) {
        Some(name) => Some(trim(&name)),
        None => None,
    }
}

/// The first chipset in the display report, or the empty text.
pub fn read_display_report(report: &Vec<char>) -> (r: Vec<char>)
    ensures
        r@ == text_or_empty(first_chipset(lines_of(report@))),
{
    let lines = split_lines(report);
    let mut i: usize = 0;
    assert(texts(lines@).skip(0) == texts(lines@));
    while i < lines.len()
        invariant
            i <= lines.len(),
            texts(lines@) == lines_of(report@),
            first_chipset(texts(lines@)) == first_chipset(texts(lines@).skip(i as int)),
        decreases lines.len() - i,
    {
        assert(texts(lines@).skip(i as int)[0] == lines[i as int]@);
        match read_chipset(&lines[i]) {
            Some(name) => {
                return name;
            },
            None => {},
        }
        assert(texts(lines@).skip(i as int).drop_first() == texts(lines@).skip(i + 1));
        i += 1;
    }
    Vec::new()
}

/// Whether `line` describes a display device.
pub fn describes_display_device(line: &Vec<char>) -> (r: bool)
    ensures
        r == is_display_device(line@),
{
    contains(line, &chars_of("Display")) || contains(line, &chars_of("3D")) || contains(
        line,
        &chars_of("VGA"),
    )
}

/// What is shown of a line of the PCI list.
pub fn read_device_line(line: &Vec<char>) -> (r: Vec<char>)
    ensures
        r@ == device_line(line@),
{
    trim(&part_before(line, &chars_of(" (rev")))
}

/// What is shown of the first display device in the PCI list, or the
/// empty text.
pub fn read_pci_devices(devices: &Vec<char>) -> (r: Vec<char>)
    ensures
        r@ == text_or_empty(first_display_device(lines_of(devices@))),
{
    let lines = split_lines(devices);
    let mut i: usize = 0;
    assert(texts(lines@).skip(0) == texts(lines@));
    while i < lines.len()
        invariant
            i <= lines.len(),
            texts(lines@) == lines_of(devices@),
            first_display_device(texts(lines@)) == first_display_device(
                texts(lines@).skip(i as int),
            ),
        decreases lines.len() - i,
    {
        assert(texts(lines@).skip(i as int)[0] == lines[i as int]@);
        if describes_display_device(&lines[i]) {
            return read_device_line(&lines[i]);
        }
        assert(texts(lines@).skip(i as int).drop_first() == texts(lines@).skip(i + 1));
        i += 1;
    }
    Vec::new()
}

/// The graphics adapter, as displayed. `os` is the kernel's name.
pub fn get_gpu_info(os: &str, evidence: &GpuEvidence) -> (gpu: String)
    ensures
        gpu@ == gpu_text(family_of(os@), evidence@),
        gpu@.len() > 0,
{
    let found = match classify_os(os) {
        OsFamily::Darwin => {
            if names_mobile_system(&evidence.os_product_name) {
                Vec::new()
            } else {
                read_display_report(&chars_or_empty(&evidence.display_report))
            }
        },
        _ => read_pci_devices(&chars_or_empty(&evidence.pci_devices)),
    };
    string_of(&known_or_unknown(found))
}

/// The evidence that the replies hold.
pub open spec fn gpu_facts(family: Family, replies: Seq<Reply>) -> GpuFacts {
    match family {
        Family::Darwin => GpuFacts {
            os_product_name: text_at(replies, 0),
            display_report: text_at(replies, 1),
            ..GpuFacts::none()
        },
        _ => GpuFacts { pci_devices: text_at(replies, 0), ..GpuFacts::none() },
    }
}

/// What the graphics probe does after the replies so far. On Darwin it
/// asks the version tool for the product name and then, unless that names
/// the mobile variant, the display information tool for its report. On
/// every other system it asks the PCI enumeration tool for its list. It
/// shows the adapter once these are answered.
pub open spec fn gpu_move(family: Family, replies: Seq<Reply>) -> Move {
    match family {
        Family::Darwin => if replies.len() == 0 {
            Move::Ask(Source::Command { program: "sw_vers"@, arguments: seq!["-productName"@] })
        } else if replies.len() == 1 && !is_mobile(text_at(replies, 0)) {
            Move::Ask(
                Source::Command {
                    program: "system_profiler"@,
                    arguments: seq!["SPDisplaysDataType"@],
                },
            )
        } else {
            Move::Done(gpu_text(family, gpu_facts(family, replies)))
        },
        _ => if replies.len() == 0 {
            Move::Ask(Source::Command { program: "lspci"@, arguments: Seq::empty() })
        } else {
            Move::Done(gpu_text(family, gpu_facts(family, replies)))
        },
    }
}

/// The next step of the graphics probe, given the answers so far. `os` is
/// the kernel's name.
pub fn gpu_step(os: &str, answers: &Vec<Answer>) -> (step: Step)
    ensures
        step@ == gpu_move(family_of(os@), replies(answers@)),
{
    let n = answers.len();
    let mut evidence = GpuEvidence::new();
    match classify_os(os) {
        OsFamily::Darwin => {
            if n == 0 {
                return Step::Ask(command_with("sw_vers", "-productName"));
            }
            evidence.os_product_name = answer_text(answers, 0);
            if n == 1 && !names_mobile_system(&evidence.os_product_name) {
                return Step::Ask(command_with("system_profiler", "SPDisplaysDataType"));
            }
            evidence.display_report = answer_text(answers, 1);
        },
        _ => {
            if n == 0 {
                return Step::Ask(command("lspci"));
            }
            evidence.pci_devices = answer_text(answers, 0);
        },
    }
    Step::Done(get_gpu_info(os, &evidence))
}

} // verus!
