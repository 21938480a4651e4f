//! The installed-packages probe: which package managers the machine has,
//! and how many packages each one reports.

use crate::number::{decimal, decimal_digits};
use crate::probe::{
    answer_text, command_with, command_with_two, directory, known_or_unknown, or_unknown, replies,
    strings, text_at, variable, Answer, EvidenceSource, Move, Reply, Source, Step,
};
use crate::text::{
    append, append_str, chars_of, find_from, lemma_find_from, lines_of, occurs_at, opt_text,
    pieces, split, split_lines, string_of, texts,
};
use vstd::prelude::*;

verus! {

/// The package managers that the probe knows.
#[derive(Debug, Clone, Copy, PartialEq, Eq)]
pub enum PackageManager {
    Pacman,
    Rpm,
    Emerge,
    Xbps,
    Dpkg,
    Brew,
    Port,
}

/// The package managers in the order in which they are reported.
pub open spec fn managers() -> Seq<PackageManager> {
    seq![
        PackageManager::Pacman,
        PackageManager::Rpm,
        PackageManager::Emerge,
        PackageManager::Xbps,
        PackageManager::Dpkg,
        PackageManager::Brew,
        PackageManager::Port,
    ]
}

impl PackageManager {
    /// The name of the manager's program, by which it is searched.
    pub open spec fn program_name(self) -> Seq<char> {
        match self {
            PackageManager::Pacman => "pacman"@,
            PackageManager::Rpm => "rpm"@,
            PackageManager::Emerge => "emerge"@,
            PackageManager::Xbps => "xbps-query"@,
            PackageManager::Dpkg => "dpkg"@,
            PackageManager::Brew => "brew"@,
            PackageManager::Port => "port"@,
        }
    }

    /// The name under which the manager's count is shown: the name of its
    /// program.
    pub open spec fn label_text(self) -> Seq<char> {
        self.program_name()
    }

    /// Where the manager's count comes from: the entries of its database
    /// directory, or the lines that its list command prints.
    pub open spec fn count_source_of(self) -> Source {
        match self {
            PackageManager::Pacman => Source::Directory { path: "/var/lib/pacman/local"@ },
            PackageManager::Rpm => Source::Command { program: "rpm"@, arguments: seq!["-qa"@] },
            PackageManager::Emerge => Source::Directory { path: "/var/db/pkg"@ },
            PackageManager::Xbps => Source::Command {
                program: "xbps-query"@,
                arguments: seq!["-l"@],
            },
            PackageManager::Dpkg => Source::Command { program: "dpkg"@, arguments: seq!["-l"@] },
            PackageManager::Brew => Source::Command {
                program: "brew"@,
                arguments: seq!["list"@, "-1"@],
            },
            PackageManager::Port => Source::Command {
                program: "port"@,
                arguments: seq!["installed"@],
            },
        }
    }

    /// The package managers in the order in which they are reported.
    pub fn all() -> (r: Vec<PackageManager>)
        ensures
            r@ == managers(),
    {
        let mut r: Vec<PackageManager> = Vec::new();
        r.push(PackageManager::Pacman);
        r.push(PackageManager::Rpm);
        r.push(PackageManager::Emerge);
        r.push(PackageManager::Xbps);
        r.push(PackageManager::Dpkg);
        r.push(PackageManager::Brew);
        r.push(PackageManager::Port);
        r
    }

    /// The name of the manager's program.
    pub fn program(self) -> (name: &'static str)
        ensures
            name@ == self.program_name(),
    {
        match self {
            PackageManager::Pacman => "pacman",
            PackageManager::Rpm => "rpm",
            PackageManager::Emerge => "emerge",
            PackageManager::Xbps => "xbps-query",
            PackageManager::Dpkg => "dpkg",
            PackageManager::Brew => "brew",
            PackageManager::Port => "port",
        }
    }

    /// The name under which the manager's count is shown.
    pub fn label(self) -> (name: &'static str)
        ensures
            name@ == self.label_text(),
    {
        self.program()
    }

    /// Where the manager's count comes from.
    pub fn count_source(self) -> (source: EvidenceSource)
        ensures
            source@ == self.count_source_of(),
    {
        match self {
            PackageManager::Pacman => directory("/var/lib/pacman/local"),
            PackageManager::Rpm => command_with("rpm", "-qa"),
            PackageManager::Emerge => directory("/var/db/pkg"),
            PackageManager::Xbps => command_with("xbps-query", "-l"),
            PackageManager::Dpkg => command_with("dpkg", "-l"),
            PackageManager::Brew => command_with_two("brew", "list", "-1"),
            PackageManager::Port => command_with("port", "installed"),
        }
    }
}

/// The path of `file` in the directory `dir`: an absolute `file` stands
/// for itself, and a separator is put between the two where `dir` is not
/// empty and does not end in one.
pub open spec fn joined_path(dir: Seq<char>, file: Seq<char>) -> Seq<char> {
    if file.len() > 0 && file[0] == '/' {
        file
    } else if dir.len() == 0 || dir.last() == '/' {
        dir + file
    } else {
        dir + seq!['/'] + file
    }
}

/// The paths at which `program` may stand, given the search path: one in
/// each of the directories that the colons of the search path separate, in
/// their order. An unset search path names no directory.
pub open spec fn candidates(search_path: Option<Seq<char>>, program: Seq<char>) -> Seq<Seq<char>> {
    match search_path {
        Some(path) => pieces(path, ":"@).map_values(|dir: Seq<char>| joined_path(dir, program)),
        None => Seq::empty(),
    }
}

/// The path of `file` in the directory `dir`.
pub fn join_path(dir: &Vec<char>, file: &Vec<char>) -> (r: Vec<char>)
    ensures
        r@ == joined_path(dir@, file@),
{
    let mut out: Vec<char> = Vec::new();
    if file.len() > 0 && file[0] == '/' {
        append(&mut out, file);
        return out;
    }
    append(&mut out, dir);
    if dir.len() > 0 && dir[dir.len() - 1] != '/' {
        out.push('/');
    }
    append(&mut out, file);
    out
}

/// The paths at which `program` may stand, given the value of the search
/// path variable. The program is installed if a file exists at one of
/// them.
pub fn search_paths(search_path: &Option<String>, program: &str) -> (r: Vec<String>)
    ensures
        strings(r@) == candidates(opt_text(*search_path), program@),
{
    let mut out: Vec<String> = Vec::new();
    assert(strings(out@) == Seq::<Seq<char>>::empty());
    match search_path {
        None => {},
        Some(path) => {
            let dirs = split(&chars_of(path.as_str()), &chars_of(":"));
            let file = chars_of(program);
            let mut i: usize = 0;
            while i < dirs.len()
                invariant
                    i <= dirs.len(),
                    file@ == program@,
                    texts(dirs@) == pieces(path@, ":"@),
                    strings(out@) == candidates(Some(path@), program@).take(i as int),
                decreases dirs.len() - i,
            {
                let ghost before = strings(out@);
                let p = string_of(&join_path(&dirs[i], &file));
                assert(texts(dirs@)[i as int] == dirs[i as int]@);
                out.push(p);
                assert(strings(out@) == before.push(p@));
                i += 1;
            }
        },
    }
    out
}

/// The number of lines in what a list command printed.
pub fn count_lines(output: &str) -> (n: usize)
    ensures
        n == lines_of(output@).len(),
{
    split_lines(&chars_of(output)).len()
}

/// How many packages each manager reports. A field is `None` where the
/// manager is not installed.
#[derive(Debug, Clone, Copy, PartialEq, Eq)]
pub struct PackageCounts {
    pub pacman: Option<u64>,
    pub rpm: Option<u64>,
    pub emerge: Option<u64>,
    pub xbps: Option<u64>,
    pub dpkg: Option<u64>,
    pub brew: Option<u64>,
    pub port: Option<u64>,
}

impl PackageCounts {
    /// The counts of a machine on which no manager is installed.
    pub open spec fn nothing() -> PackageCounts {
        PackageCounts {
            pacman: None,
            rpm: None,
            emerge: None,
            xbps: None,
            dpkg: None,
            brew: None,
            port: None,
        }
    }

    /// These counts with the count of one more manager.
    pub open spec fn with_count(self, manager: PackageManager, count: u64) -> PackageCounts {
        match manager {
            PackageManager::Pacman => PackageCounts { pacman: Some(count), ..self },
            PackageManager::Rpm => PackageCounts { rpm: Some(count), ..self },
            PackageManager::Emerge => PackageCounts { emerge: Some(count), ..self },
            PackageManager::Xbps => PackageCounts { xbps: Some(count), ..self },
            PackageManager::Dpkg => PackageCounts { dpkg: Some(count), ..self },
            PackageManager::Brew => PackageCounts { brew: Some(count), ..self },
            PackageManager::Port => PackageCounts { port: Some(count), ..self },
        }
    }

    /// The counts of a machine on which no manager is installed.
    pub fn none() -> (counts: PackageCounts)
        ensures
            counts == PackageCounts::nothing(),
    {
        PackageCounts {
            pacman: None,
            rpm: None,
            emerge: None,
            xbps: None,
            dpkg: None,
            brew: None,
            port: None,
        }
    }

    /// These counts with the count of one more manager.
    pub fn with(self, manager: PackageManager, count: u64) -> (counts: PackageCounts)
        ensures
            counts == self.with_count(manager, count),
    {
        let mut counts = self;
        match manager {
            PackageManager::Pacman => {
                counts.pacman = Some(count);
            },
            PackageManager::Rpm => {
                counts.rpm = Some(count);
            },
            PackageManager::Emerge => {
                counts.emerge = Some(count);
            },
            PackageManager::Xbps => {
                counts.xbps = Some(count);
            },
            PackageManager::Dpkg => {
                counts.dpkg = Some(count);
            },
            PackageManager::Brew => {
                counts.brew = Some(count);
            },
            PackageManager::Port => {
                counts.port = Some(count);
            },
        }
        counts
    }
}

/// One entry of the report: the count, a blank and the manager's label.
pub open spec fn segment(count: nat, label: Seq<char>) -> Seq<char> {
    decimal(count) + seq![' '] + label
}

/// The report `list`, with the entry of a manager that was found put
/// behind it, after a comma where the report already has entries.
pub open spec fn extended(list: Seq<char>, found: Option<u64>, label: Seq<char>) -> Seq<char> {
    match found {
        Some(count) => if list.len() == 0 {
            segment(count as nat, label)
        } else {
            list + ", "@ + segment(count as nat, label)
        },
        None => list,
    }
}

/// The count under which dpkg is reported: unlike the others it is left
/// out where it reports no package.
pub open spec fn dpkg_reported(found: Option<u64>) -> Option<u64> {
    if found == Some(0u64) {
        None
    } else {
        found
    }
}

/// The entries of all managers that were found, in their fixed order.
pub open spec fn package_list(c: PackageCounts) -> Seq<char> {
    let a = extended(Seq::empty(), c.pacman, "pacman"@);
    let b = extended(a, c.rpm, "rpm"@);
    let d = extended(b, c.emerge, "emerge"@);
    let e = extended(d, c.xbps, "xbps-query"@);
    let f = extended(e, dpkg_reported(c.dpkg), "dpkg"@);
    let g = extended(f, c.brew, "brew"@);
    extended(g, c.port, "port"@)
}

/// The package counts, as displayed: the entries of the managers that
/// were found, or the sentinel where there is none.
pub open spec fn packages_text(c: PackageCounts) -> Seq<char> {
    or_unknown(package_list(c))
}

/// A machine with dpkg alone shows its count, and the sentinel where dpkg
/// reports no package.
pub proof fn lemma_dpkg_alone(count: u64)
    ensures
        packages_text(
            PackageCounts {
                pacman: None,
                rpm: None,
                emerge: None,
                xbps: None,
                dpkg: Some(count),
                brew: None,
                port: None,
            },
        ) == (if count == 0 {
            "Unknown"@
        } else {
            decimal(count as nat) + " dpkg"@
        }),
{
    reveal_strlit(" dpkg");
    reveal_strlit("dpkg");
    crate::number::lemma_decimal_nonempty(count as nat);
    assert(decimal(count as nat) + " dpkg"@ == segment(count as nat, "dpkg"@));
}

/// Every other manager is reported even where it reports no package.
pub proof fn lemma_pacman_alone(count: u64)
    ensures
        packages_text(
            PackageCounts {
                pacman: Some(count),
                rpm: None,
                emerge: None,
                xbps: None,
                dpkg: None,
                brew: None,
                port: None,
            },
        ) == decimal(count as nat) + " pacman"@,
{
    reveal_strlit(" pacman");
    reveal_strlit("pacman");
    crate::number::lemma_decimal_nonempty(count as nat);
    assert(decimal(count as nat) + " pacman"@ == segment(count as nat, "pacman"@));
}

fn extend(list: &mut Vec<char>, found: Option<u64>, label: &str)
    ensures
        final(list)@ == extended(old(list)@, found, label@),
{
    match found {
        Some(count) => {
            if list.len() != 0 {
                append_str(list, ", ");
            }
            let digits = decimal_digits(count as u128);
            append(list, &digits);
            list.push(' ');
            append_str(list, label);
        },
        None => {},
    }
}

/// The package counts, as displayed.
pub fn get_packages(counts: &PackageCounts) -> (packages: String)
    ensures
        packages@ == packages_text(*counts),
        packages@.len() > 0,
{
    let mut list: Vec<char> = Vec::new();
    extend(&mut list, counts.pacman, "pacman");
    extend(&mut list, counts.rpm, "rpm");
    extend(&mut list, counts.emerge, "emerge");
    extend(&mut list, counts.xbps, "xbps-query");
    let dpkg = match counts.dpkg {
        Some(0) => None,
        other => other,
    };
    extend(&mut list, dpkg, "dpkg");
    extend(&mut list, counts.brew, "brew");
    extend(&mut list, counts.port, "port");
    string_of(&known_or_unknown(list))
}

/// What each manager contributes to the report, in the fixed order: its
/// count where it was found, and nothing for dpkg without packages.
pub open spec fn contributions(c: PackageCounts) -> Seq<Option<u64>> {
    seq![c.pacman, c.rpm, c.emerge, c.xbps, dpkg_reported(c.dpkg), c.brew, c.port]
}

/// The entries of the first `k` managers that contribute, in order.
pub open spec fn segments_upto(c: PackageCounts, k: int) -> Seq<Seq<char>>
    decreases k,
{
    if 0 < k <= 7 {
        match contributions(c)[k - 1] {
            Some(count) => segments_upto(c, k - 1).push(
                segment(count as nat, managers()[k - 1].label_text()),
            ),
            None => segments_upto(c, k - 1),
        }
    } else {
        Seq::empty()
    }
}

/// The entries of the report, in order.
pub open spec fn segments(c: PackageCounts) -> Seq<Seq<char>> {
    segments_upto(c, 7)
}

/// The entries of `segs` in one line, with a comma and a blank between
/// one and the next.
pub open spec fn list_of(segs: Seq<Seq<char>>) -> Seq<char>
    decreases segs.len(),
{
    if segs.len() == 0 {
        Seq::empty()
    } else if segs.len() == 1 {
        segs[0]
    } else {
        list_of(segs.drop_last()) + ", "@ + segs.last()
    }
}

/// One for a manager that was found, nothing for one that was not.
pub open spec fn one_if_found(count: Option<u64>) -> nat {
    if count is Some {
        1
    } else {
        0
    }
}

/// The number of managers that were found.
pub open spec fn found(c: PackageCounts) -> nat {
    one_if_found(c.pacman) + one_if_found(c.rpm) + one_if_found(c.emerge) + one_if_found(c.xbps)
        + one_if_found(c.dpkg) + one_if_found(c.brew) + one_if_found(c.port)
}

/// Whether no comma stands in any of `segs`, and none of them is empty.
pub open spec fn plain_segments(segs: Seq<Seq<char>>) -> bool {
    forall|i: int|
        0 <= i < segs.len() ==> (#[trigger] segs[i]).len() > 0 && (forall|j: int|
            0 <= j < segs[i].len() ==> segs[i][j] != ',')
}

proof fn lemma_list_push(segs: Seq<Seq<char>>, entry: Seq<char>)
    requires
        plain_segments(segs),
    ensures
        list_of(segs.push(entry)) == (if segs.len() == 0 {
            entry
        } else {
            list_of(segs) + ", "@ + entry
        }),
        segs.len() > 0 ==> list_of(segs).len() > 0 && list_of(segs)[0] == segs[0][0],
    decreases segs.len(),
{
    assert(segs.push(entry).drop_last() == segs);
    if segs.len() > 1 {
        lemma_list_push(segs.drop_last(), segs.last());
        assert(segs.drop_last().push(segs.last()) == segs);
        assert(segs.drop_last()[0] == segs[0]);
    }
}

proof fn lemma_segment_plain(count: nat, manager: PackageManager)
    ensures
        segment(count, manager.label_text()).len() > 0,
        '0' <= segment(count, manager.label_text())[0] <= '9',
        forall|j: int|
            0 <= j < segment(count, manager.label_text()).len() ==> segment(
                count,
                manager.label_text(),
            )[j] != ',',
{
    crate::number::lemma_decimal_nonempty(count);
    crate::number::lemma_decimal_digits(count);
    reveal_strlit("pacman");
    reveal_strlit("rpm");
    reveal_strlit("emerge");
    reveal_strlit("xbps-query");
    reveal_strlit("dpkg");
    reveal_strlit("brew");
    reveal_strlit("port");
    let d = decimal(count);
    let label = manager.label_text();
    let whole = segment(count, label);
    assert forall|j: int| 0 <= j < whole.len() implies whole[j] != ',' by {
        if j < d.len() {
            assert(whole[j] == d[j]);
        } else if j == d.len() {
            assert(whole[j] == ' ');
        } else {
            assert(whole[j] == label[j - d.len() - 1]);
        }
    }
    assert(whole[0] == d[0]);
}

proof fn lemma_segments_plain(c: PackageCounts, k: int)
    ensures
        plain_segments(segments_upto(c, k)),
        segments_upto(c, k).len() > 0 ==> '0' <= segments_upto(c, k)[0][0] <= '9',
    decreases k,
{
    if 0 < k <= 7 {
        lemma_segments_plain(c, k - 1);
        match contributions(c)[k - 1] {
            Some(count) => {
                lemma_segment_plain(count as nat, managers()[k - 1]);
            },
            None => {},
        }
    }
}

proof fn lemma_list_step(c: PackageCounts, k: int)
    requires
        0 < k <= 7,
    ensures
        list_of(segments_upto(c, k)) == extended(
            list_of(segments_upto(c, k - 1)),
            contributions(c)[k - 1],
            managers()[k - 1].label_text(),
        ),
{
    let before = segments_upto(c, k - 1);
    lemma_segments_plain(c, k - 1);
    match contributions(c)[k - 1] {
        Some(count) => {
            lemma_list_push(before, segment(count as nat, managers()[k - 1].label_text()));
        },
        None => {},
    }
}

/// The report is made of its entries, with a comma and a blank between
/// one and the next.
pub proof fn lemma_list_is_segments(c: PackageCounts)
    ensures
        package_list(c) == list_of(segments(c)),
{
    assert(segments_upto(c, 0) == Seq::<Seq<char>>::empty());
    lemma_list_step(c, 1);
    lemma_list_step(c, 2);
    lemma_list_step(c, 3);
    lemma_list_step(c, 4);
    lemma_list_step(c, 5);
    lemma_list_step(c, 6);
    lemma_list_step(c, 7);
}

/// The report has one entry for each manager that was found, but none for
/// dpkg where it reports no package.
pub proof fn lemma_segment_count(c: PackageCounts)
    ensures
        segments(c).len() == found(c) - (if c.dpkg == Some(0u64) {
            1int
        } else {
            0int
        }),
{
    reveal_with_fuel(segments_upto, 8);
}

/// The sentinel is shown exactly where the report has no entry.
pub proof fn lemma_unknown_without_segments(c: PackageCounts)
    ensures
        packages_text(c) == "Unknown"@ <==> segments(c).len() == 0,
        segments(c).len() > 0 ==> packages_text(c) == list_of(segments(c)),
{
    lemma_list_is_segments(c);
    lemma_segments_plain(c, 7);
    reveal_strlit("Unknown");
    if segments(c).len() > 0 {
        let segs = segments(c);
        assert(segs == segs.drop_last().push(segs.last()));
        lemma_list_push(segs, Seq::empty());
    }
}

proof fn lemma_list_front(segs: Seq<Seq<char>>)
    requires
        segs.len() >= 2,
    ensures
        list_of(segs) == segs[0] + ", "@ + list_of(segs.drop_first()),
    decreases segs.len(),
{
    let front = segs.drop_last();
    let tail = segs.drop_first();
    assert(list_of(segs) == list_of(front) + ", "@ + segs.last());
    assert(front[0] == segs[0]);
    assert(tail.last() == segs.last());
    if segs.len() == 2 {
        assert(list_of(front) == front[0]);
        assert(list_of(tail) == tail[0]);
    } else {
        lemma_list_front(front);
        assert(front.drop_first() == tail.drop_last());
        assert(list_of(tail) == list_of(tail.drop_last()) + ", "@ + tail.last());
        assert(segs[0] + ", "@ + list_of(front.drop_first()) + ", "@ + segs.last() == segs[0]
            + ", "@ + (list_of(front.drop_first()) + ", "@ + segs.last()));
    }
}

proof fn lemma_first_separator(head: Seq<char>, rest: Seq<char>)
    requires
        forall|j: int| 0 <= j < head.len() ==> head[j] != ',',
    ensures
        find_from(head + ", "@ + rest, ", "@, 0) == Some(head.len() as int),
        find_from(head, ", "@, 0) is None,
{
    reveal_strlit(", ");
    let pat = ", "@;
    let s = head + pat + rest;
    lemma_find_from(s, pat, 0);
    lemma_find_from(head, pat, 0);
    assert(s.subrange(head.len() as int, (head.len() + 2) as int) == pat);
    assert(occurs_at(s, pat, head.len() as int));
    match find_from(s, pat, 0) {
        Some(i) => {
            if i < head.len() {
                assert(s.subrange(i, i + 2)[0] == s[i]);
                assert(s[i] == head[i]);
            }
        },
        None => {},
    }
    match find_from(head, pat, 0) {
        Some(i) => {
            assert(head.subrange(i, i + 2)[0] == head[i]);
        },
        None => {},
    }
}

proof fn lemma_pieces_of_list(segs: Seq<Seq<char>>)
    requires
        segs.len() > 0,
        plain_segments(segs),
    ensures
        pieces(list_of(segs), ", "@) == segs,
    decreases segs.len(),
{
    reveal_strlit(", ");
    if segs.len() == 1 {
        lemma_first_separator(segs[0], Seq::empty());
        assert(pieces(segs[0], ", "@) == seq![segs[0]]);
    } else {
        let rest = list_of(segs.drop_first());
        lemma_list_front(segs);
        lemma_first_separator(segs[0], rest);
        assert forall|i: int| 0 <= i < segs.drop_first().len() implies (#[trigger] segs.drop_first()[i]).len()
            > 0 && (forall|j: int|
            0 <= j < segs.drop_first()[i].len() ==> segs.drop_first()[i][j] != ',') by {
            assert(segs.drop_first()[i] == segs[i + 1]);
        }
        lemma_pieces_of_list(segs.drop_first());
        let s = segs[0] + ", "@ + rest;
        assert(s.take(segs[0].len() as int) == segs[0]);
        assert(s.skip((segs[0].len() + 2) as int) == rest);
        assert(seq![segs[0]] + segs.drop_first() == segs);
    }
}

/// The entries of a report can be told apart: the commas of the report
/// are those between its entries.
pub proof fn lemma_segments_separated(c: PackageCounts)
    requires
        segments(c).len() > 0,
    ensures
        pieces(packages_text(c), ", "@) == segments(c),
{
    lemma_unknown_without_segments(c);
    lemma_segments_plain(c, 7);
    lemma_pieces_of_list(segments(c));
}

/// The count that a reply to a manager's count source holds: the number
/// itself, or the number of lines of a text. No reply counts as none.
pub open spec fn reported_count(reply: Reply) -> u64 {
    match reply {
        Reply::Count(n) => n,
        Reply::Text(output) => lines_of(output).len() as u64,
        _ => 0,
    }
}

/// What the packages probe does with the managers from the `k`-th on,
/// given the search path, the replies that are left for them, and the
/// counts of the managers before. Each manager's program is searched at
/// its candidate paths; a manager that is found is asked for its count, a
/// manager that is not found is passed over; after the last manager the
/// counts are shown.
pub open spec fn packages_walk(
    search_path: Option<Seq<char>>,
    replies: Seq<Reply>,
    k: int,
    counts: PackageCounts,
) -> Move
    decreases managers().len() - k,
{
    if 0 <= k < managers().len() {
        let manager = managers()[k];
        if replies.len() == 0 {
            Move::Ask(Source::Program { paths: candidates(search_path, manager.program_name()) })
        } else if replies[0] is Text {
            if replies.len() == 1 {
                Move::Ask(manager.count_source_of())
            } else {
                packages_walk(
                    search_path,
                    replies.skip(2),
                    k + 1,
                    counts.with_count(manager, reported_count(replies[1])),
                )
            }
        } else {
            packages_walk(search_path, replies.skip(1), k + 1, counts)
        }
    } else {
        Move::Done(packages_text(counts))
    }
}

/// What the packages probe does after the replies so far: it asks for
/// the environment's search path, and then goes through the managers.
pub open spec fn packages_move(replies: Seq<Reply>) -> Move {
    if replies.len() == 0 {
        Move::Ask(Source::Variable { name: "PATH"@ })
    } else {
        packages_walk(text_at(replies, 0), replies.skip(1), 0, PackageCounts::nothing())
    }
}

fn count_in(answer: &Answer) -> (n: u64)
    ensures
        n == reported_count(answer@),
{
    match answer {
        Answer::Count(n) => *n,
        Answer::Text(output) => count_lines(output.as_str()) as u64,
        _ => 0,
    }
}

/// The next step of the packages probe, given the answers so far.
pub fn packages_step(answers: &Vec<Answer>) -> (step: Step)
    ensures
        step@ == packages_move(replies(answers@)),
{
    if answers.len() == 0 {
        return Step::Ask(variable("PATH"));
    }
    let search_path = answer_text(answers, 0);
    let all = PackageManager::all();
    let mut counts = PackageCounts::none();
    let mut pos: usize = 1;
    let mut k: usize = 0;
    while k < 7
        invariant
            k <= 7,
            1 <= pos <= answers.len(),
            all@ == managers(),
            opt_text(search_path) == text_at(replies(answers@), 0),
            packages_move(replies(answers@)) == packages_walk(
                opt_text(search_path),
                replies(answers@).skip(pos as int),
                k as int,
                counts,
            ),
        decreases 7 - k,
    {
        let manager = all[k];
        let ghost rest = replies(answers@).skip(pos as int);
        if pos == answers.len() {
            let paths = search_paths(&search_path, manager.program());
            return Step::Ask(EvidenceSource::Program { paths });
        }
        assert(rest[0] == answers[pos as int]@);
        match &answers[pos] {
            Answer::Text(_) => {
                if pos + 1 == answers.len() {
                    return Step::Ask(manager.count_source());
                }
                assert(rest[1] == answers[pos + 1]@);
                assert(rest.skip(2) == replies(answers@).skip(pos + 2));
                counts = counts.with(manager, count_in(&answers[pos + 1]));
                pos += 2;
            },
            _ => {
                assert(rest.skip(1) == replies(answers@).skip(pos + 1));
                pos += 1;
            },
        }
        k += 1;
    }
    Step::Done(get_packages(&counts))
}

/// A manager that was not found is not asked for its count: after the
/// reply that it was not found, the walk searches the next manager, or is
/// done.
pub proof fn lemma_not_found_not_asked(
    search_path: Option<Seq<char>>,
    replies: Seq<Reply>,
    k: int,
    counts: PackageCounts,
)
    requires
        0 <= k < managers().len(),
        replies.len() == 1,
        !(replies[0] is Text),
    ensures
        packages_walk(search_path, replies, k, counts) == (if k + 1 < managers().len() {
            Move::Ask(
                Source::Program { paths: candidates(search_path, managers()[k + 1].program_name()) },
            )
        } else {
            Move::Done(packages_text(counts))
        }),
{
    assert(replies.skip(1).len() == 0);
    reveal_with_fuel(packages_walk, 2);
}

/// Two replies for each manager that is left are enough for the walk to
/// come to its end.
pub proof fn lemma_walk_finishes(
    search_path: Option<Seq<char>>,
    replies: Seq<Reply>,
    k: int,
    counts: PackageCounts,
)
    requires
        0 <= k <= managers().len(),
        replies.len() >= 2 * (managers().len() - k),
    ensures
        packages_walk(search_path, replies, k, counts) is Done,
    decreases managers().len() - k,
{
    if k < managers().len() {
        if replies[0] is Text {
            lemma_walk_finishes(
                search_path,
                replies.skip(2),
                k + 1,
                counts.with_count(managers()[k], reported_count(replies[1])),
            );
        } else {
            lemma_walk_finishes(search_path, replies.skip(1), k + 1, counts);
        }
    }
}

} // verus!
