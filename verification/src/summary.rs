//! The attributes of the summary, and what holds of all their probes.

use crate::cpu::{cpu_move, cpu_step};
use crate::gpu::{gpu_move, gpu_step};
use crate::memory::{lemma_memory_nonempty, memory_move, memory_reading, memory_step};
use crate::model::{
    lemma_finished_nonempty, lemma_placeholders_nonempty, lemma_strip_clean, model_facts,
    model_move, model_step, placeholder_free, raw_model,
};
use crate::os_family::{family_of, Family};
use crate::os_version::{
    lemma_os_version_nonempty, os_version_facts, os_version_move, os_version_step,
};
use crate::packages::{
    lemma_walk_finishes, managers, package_list, packages_move, packages_step, packages_walk,
    reported_count, PackageCounts,
};
use crate::probe::{
    lemma_or_unknown_nonempty, or_unknown, replies, text_at, Answer, Move, Reply, Step,
};
use crate::shell::{lemma_shell_nonempty, shell_move, shell_step};
use crate::text::contains_text;
use crate::uptime::{lemma_uptime_nonempty, uptime_move, uptime_reading, uptime_step};
use crate::user::{user_move, user_step};
use vstd::prelude::*;

verus! {

/// The attributes of the machine that the summary shows.
#[derive(Debug, Clone, Copy, PartialEq, Eq)]
pub enum Attribute {
    User,
    Model,
    OsVersion,
    Cpu,
    Gpu,
    Packages,
    Shell,
    Memory,
    Uptime,
}

/// What the probe of an attribute does after the replies so far, on a
/// system of the given family.
pub open spec fn probe_move(attribute: Attribute, family: Family, replies: Seq<Reply>) -> Move {
    match attribute {
        Attribute::User => user_move(replies),
        Attribute::Model => model_move(family, replies),
        Attribute::OsVersion => os_version_move(family, replies),
        Attribute::Cpu => cpu_move(family, replies),
        Attribute::Gpu => gpu_move(family, replies),
        Attribute::Packages => packages_move(replies),
        Attribute::Shell => shell_move(replies),
        Attribute::Memory => memory_move(replies),
        Attribute::Uptime => uptime_move(replies),
    }
}

/// The number of replies after which the probe of an attribute asks
/// nothing more.
pub open spec fn most_questions(attribute: Attribute) -> nat {
    match attribute {
        Attribute::User => 1,
        Attribute::Model => 6,
        Attribute::OsVersion => 3,
        Attribute::Cpu => 1,
        Attribute::Gpu => 2,
        Attribute::Packages => 15,
        Attribute::Shell => 2,
        Attribute::Memory => 1,
        Attribute::Uptime => 1,
    }
}

/// A probe never shows nothing: whatever the replies, what it shows in the
/// end has at least one character.
pub proof fn lemma_probe_shows_something(
    attribute: Attribute,
    family: Family,
    replies: Seq<Reply>,
)
    ensures
        probe_move(attribute, family, replies) matches Move::Done(text) ==> text.len() > 0,
{
    assert forall|s: Seq<char>| (#[trigger] or_unknown(s)).len() > 0 by {
        lemma_or_unknown_nonempty(s);
    }
    match attribute {
        Attribute::Model => {
            lemma_finished_nonempty(raw_model(family, model_facts(family, replies)));
        },
        Attribute::OsVersion => {
            lemma_os_version_nonempty(family, os_version_facts(family, replies));
        },
        Attribute::Packages => {
            if replies.len() > 0 {
                lemma_walk_shows_something(
                    text_at(replies, 0),
                    replies.skip(1),
                    0,
                    PackageCounts::nothing(),
                );
            }
        },
        Attribute::Shell => {
            if replies.len() > 0 && text_at(replies, 0) is Some {
                lemma_shell_nonempty(text_at(replies, 0)->0, text_at(replies, 1));
            }
        },
        Attribute::Memory => {
            lemma_memory_nonempty(memory_reading(replies));
        },
        Attribute::Uptime => {
            lemma_uptime_nonempty(uptime_reading(replies));
        },
        _ => {},
    }
}

proof fn lemma_walk_shows_something(
    search_path: Option<Seq<char>>,
    replies: Seq<Reply>,
    k: int,
    counts: PackageCounts,
)
    ensures
        packages_walk(search_path, replies, k, counts) matches Move::Done(text) ==> text.len() > 0,
    decreases managers().len() - k,
{
    lemma_or_unknown_nonempty(package_list(counts));
    if 0 <= k < managers().len() && replies.len() > 0 {
        if replies[0] is Text {
            if replies.len() > 1 {
                lemma_walk_shows_something(
                    search_path,
                    replies.skip(2),
                    k + 1,
                    counts.with_count(managers()[k], reported_count(replies[1])),
                );
            }
        } else {
            lemma_walk_shows_something(search_path, replies.skip(1), k + 1, counts);
        }
    }
}

/// A probe comes to its end: once it has as many replies as it can have
/// questions, it asks nothing more.
pub proof fn lemma_probe_finishes(attribute: Attribute, family: Family, replies: Seq<Reply>)
    requires
        replies.len() >= most_questions(attribute),
    ensures
        !(probe_move(attribute, family, replies) is Ask),
{
    if attribute == Attribute::Packages {
        lemma_walk_finishes(text_at(replies, 0), replies.skip(1), 0, PackageCounts::nothing());
    }
}

/// On a system that is neither Linux nor Darwin the version probe shows
/// the sentinel and the kernel's name, and the model and processor probes
/// show the sentinel; none of the three asks anything.
pub proof fn lemma_unknown_family(name: Seq<char>, replies: Seq<Reply>)
    requires
        name != "Linux"@,
        name != "Darwin"@,
    ensures
        probe_move(Attribute::OsVersion, family_of(name), replies) == Move::Done(
            "Unknown "@ + name,
        ),
        probe_move(Attribute::Model, family_of(name), replies) == Move::Done("Unknown"@),
        probe_move(Attribute::Cpu, family_of(name), replies) == Move::Done("Unknown"@),
{
    let empty = Seq::<char>::empty();
    reveal_strlit("Standard PC");
    assert(placeholder_free(empty)) by {
        lemma_placeholders_nonempty();
    }
    lemma_strip_clean(empty);
    assert(!contains_text(empty, "Standard PC"@));
}

/// The next step of the probe of an attribute, given the answers so far.
/// `os` is the kernel's name.
pub fn probe_step(attribute: Attribute, os: &str, answers: &Vec<Answer>) -> (step: Step)
    ensures
        step@ == probe_move(attribute, family_of(os@), replies(answers@)),
        step matches Step::Done(text) ==> text@.len() > 0,
{
    proof {
        lemma_probe_shows_something(attribute, family_of(os@), replies(answers@));
    }
    match attribute {
        Attribute::User => user_step(answers),
        Attribute::Model => model_step(os, answers),
        Attribute::OsVersion => os_version_step(os, answers),
        Attribute::Cpu => cpu_step(os, answers),
        Attribute::Gpu => gpu_step(os, answers),
        Attribute::Packages => packages_step(answers),
        Attribute::Shell => shell_step(answers),
        Attribute::Memory => memory_step(answers),
        Attribute::Uptime => uptime_step(answers),
    }
}

} // verus!
