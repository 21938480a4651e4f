//! The memory probe: how much of the machine's memory is in use. The figures
//! are those that a machine computes in double precision from its counters;
//! they are stated here over whole numbers.

use crate::binary::{
    binary_percent, hundredfold, lemma_percent_at_scale, lemma_percent_up, lemma_small_is_binary,
    nearest_binary, percent_parts, to_binary, LEAST_MANTISSA, MANTISSA_LIMIT,
};
use crate::number::{
    one_place, one_place_digits, round_ratio, rounded_ratio, two_place_digits, two_places,
};
use crate::probe::{
    cause_text, failure_text, replies, Answer, EvidenceSource, Move, Reply, Source, Step,
};
use crate::text::{append, append_str, string_of};
use vstd::arithmetic::div_mod::lemma_fundamental_div_mod_converse;
use vstd::arithmetic::power2::{lemma2_to64, lemma2_to64_rest, pow2};
use vstd::prelude::*;

verus! {

/// The memory counters of the machine, in kilobytes.
#[derive(Debug, Clone, Copy, PartialEq, Eq)]
pub struct MemoryReading {
    /// All memory of the machine.
    pub total_kb: u64,
    /// The memory that is not in use.
    pub free_kb: u64,
}

/// A number of kilobytes in megabytes of 1024 kilobytes, with two decimal
/// places, rounded to the nearest, halves to even.
pub open spec fn megabytes(kb: nat) -> Seq<char> {
    two_places(rounded_ratio(kb * 100, 1024))
}

/// The total as the machine holds it: the binary number nearest to the
/// counter.
pub open spec fn held_total(total_kb: nat) -> nat {
    nearest_binary(total_kb)
}

/// The free memory as the machine holds it.
pub open spec fn held_free(free_kb: nat) -> nat {
    nearest_binary(free_kb)
}

/// Whether the machine holds more as free than as total.
pub open spec fn more_free(total_kb: nat, free_kb: nat) -> bool {
    held_free(free_kb) > held_total(total_kb)
}

/// The size of the memory in use as the machine holds it: the binary number
/// nearest to the difference of the total and the free memory that it
/// holds.
pub open spec fn held_used(total_kb: nat, free_kb: nat) -> nat {
    if more_free(total_kb, free_kb) {
        nearest_binary((held_free(free_kb) - held_total(total_kb)) as nat)
    } else {
        nearest_binary((held_total(total_kb) - held_free(free_kb)) as nat)
    }
}

/// The memory in use, in megabytes: what is left of the total without the
/// free memory. It is negative where more is free than there is.
pub open spec fn used_text(total_kb: nat, free_kb: nat) -> Seq<char> {
    if more_free(total_kb, free_kb) {
        seq!['-'] + megabytes(held_used(total_kb, free_kb))
    } else {
        megabytes(held_used(total_kb, free_kb))
    }
}

/// The tenths of the percentage in use: the percentage that the machine
/// computes for the memory in use of the total, times ten, rounded to the
/// nearest whole number, halves to even.
pub open spec fn percent_tenths(total_kb: nat, free_kb: nat) -> nat {
    let p = binary_percent(held_used(total_kb, free_kb), held_total(total_kb));
    rounded_ratio(10 * p.0, p.1)
}

/// The memory in use as a percentage of the total, with one decimal place.
/// It is negative where more is free than there is. Of no memory at all the
/// percentage is not a number where nothing is free, and negative
/// infinity where something is.
pub open spec fn percent_text(total_kb: nat, free_kb: nat) -> Seq<char> {
    if held_total(total_kb) == 0 {
        if held_free(free_kb) == 0 {
            "NaN"@
        } else {
            "-inf"@
        }
    } else if more_free(total_kb, free_kb) {
        seq!['-'] + one_place(percent_tenths(total_kb, free_kb))
    } else {
        one_place(percent_tenths(total_kb, free_kb))
    }
}

/// The line that shows a reading: memory in use, total memory, and the
/// percentage in use.
pub open spec fn memory_line(total_kb: nat, free_kb: nat) -> Seq<char> {
    used_text(total_kb, free_kb) + " MB / "@ + megabytes(held_total(total_kb)) + " MB ("@
        + percent_text(total_kb, free_kb) + "% used)"@
}

/// The memory usage, as displayed.
pub open spec fn memory_text(reading: Result<MemoryReading, Seq<char>>) -> Seq<char> {
    match reading {
        Ok(r) => memory_line(r.total_kb as nat, r.free_kb as nat),
        Err(cause) => failure_text(cause),
    }
}

/// Counters below two to the 53rd, which is every memory that a machine
/// can have, are held as they are, and so is their difference.
pub proof fn lemma_counters_held_exactly(total_kb: nat, free_kb: nat)
    requires
        total_kb < MANTISSA_LIMIT,
        free_kb < MANTISSA_LIMIT,
    ensures
        held_total(total_kb) == total_kb,
        held_free(free_kb) == free_kb,
        more_free(total_kb, free_kb) == (free_kb > total_kb),
        free_kb <= total_kb ==> held_used(total_kb, free_kb) == total_kb - free_kb,
        free_kb > total_kb ==> held_used(total_kb, free_kb) == free_kb - total_kb,
{
    lemma_small_is_binary(total_kb);
    lemma_small_is_binary(free_kb);
    if free_kb <= total_kb {
        lemma_small_is_binary((total_kb - free_kb) as nat);
    } else {
        lemma_small_is_binary((free_kb - total_kb) as nat);
    }
}

/// A machine of which half the memory is free shows 50 percent in use.
pub proof fn lemma_half_used(total_kb: nat, free_kb: nat)
    requires
        0 < free_kb,
        total_kb == 2 * free_kb,
        total_kb < MANTISSA_LIMIT,
    ensures
        percent_tenths(total_kb, free_kb) == 500,
        percent_text(total_kb, free_kb) == one_place(500),
{
    lemma_counters_held_exactly(total_kb, free_kb);
    lemma2_to64();
    lemma2_to64_rest();
    assert(pow2(52) * free_kb < LEAST_MANTISSA * total_kb) by (nonlinear_arith)
        requires
            pow2(52) == 0x10_0000_0000_0000,
            LEAST_MANTISSA == 0x10_0000_0000_0000,
            total_kb == 2 * free_kb,
            free_kb > 0,
    ;
    lemma_percent_up(free_kb, total_kb, 53);
    let scaled = pow2(53) * free_kb;
    assert(scaled == LEAST_MANTISSA * total_kb) by (nonlinear_arith)
        requires
            scaled == 0x20_0000_0000_0000 * free_kb,
            total_kb == 2 * free_kb,
            LEAST_MANTISSA == 0x10_0000_0000_0000,
    ;
    lemma_percent_at_scale(scaled, total_kb);
    lemma_fundamental_div_mod_converse(
        scaled as int,
        total_kb as int,
        0x10_0000_0000_0000,
        0,
    );
    assert(rounded_ratio(scaled, total_kb) == 0x10_0000_0000_0000);
    assert(hundredfold(0x10_0000_0000_0000) == 100 * 0x10_0000_0000_0000);
}

/// A machine of which no memory is free shows 100 percent in use.
pub proof fn lemma_all_used(total_kb: nat)
    requires
        0 < total_kb < MANTISSA_LIMIT,
    ensures
        percent_tenths(total_kb, 0) == 1000,
        percent_text(total_kb, 0) == one_place(1000),
{
    lemma_counters_held_exactly(total_kb, 0);
    lemma2_to64();
    lemma2_to64_rest();
    assert(pow2(51) * total_kb < LEAST_MANTISSA * total_kb) by (nonlinear_arith)
        requires
            pow2(51) == 0x8_0000_0000_0000,
            LEAST_MANTISSA == 0x10_0000_0000_0000,
            total_kb > 0,
    ;
    lemma_percent_up(total_kb, total_kb, 52);
    let scaled = pow2(52) * total_kb;
    assert(scaled == LEAST_MANTISSA * total_kb);
    lemma_percent_at_scale(scaled, total_kb);
    lemma_fundamental_div_mod_converse(
        scaled as int,
        total_kb as int,
        0x10_0000_0000_0000,
        0,
    );
    assert(rounded_ratio(scaled, total_kb) == 0x10_0000_0000_0000);
    assert(hundredfold(0x10_0000_0000_0000) == 100 * 0x10_0000_0000_0000);
}

/// A machine of which all memory is free shows 0 percent in use.
pub proof fn lemma_none_used(total_kb: nat)
    requires
        0 < total_kb < MANTISSA_LIMIT,
    ensures
        percent_tenths(total_kb, total_kb) == 0,
        percent_text(total_kb, total_kb) == one_place(0),
{
    lemma_counters_held_exactly(total_kb, total_kb);
}

fn megabyte_digits(kb: u128) -> (r: Vec<char>)
    requires
        kb <= 0x4_0000_0000_0000_0000,
    ensures
        r@ == megabytes(kb as nat),
{
    two_place_digits(round_ratio(kb * 100, 1024))
}

/// The memory usage, as displayed. `reading` holds the counters, or the
/// cause for which they could not be read.
pub fn get_memory_usage(reading: &Result<MemoryReading, String>) -> (usage: String)
    ensures
        usage@ == memory_text(cause_text(*reading)),
        usage@.len() > 0,
{
    proof {
        reveal_strlit("Unknown: ");
        reveal_strlit("% used)");
    }
    let mut out: Vec<char> = Vec::new();
    match reading {
        Ok(r) => {
            let total = to_binary(r.total_kb as u128);
            let free = to_binary(r.free_kb as u128);
            let negative = free > total;
            let used = if negative {
                to_binary(free - total)
            } else {
                to_binary(total - free)
            };
            if negative {
                out.push('-');
            }
            append(&mut out, &megabyte_digits(used));
            append_str(&mut out, " MB / ");
            append(&mut out, &megabyte_digits(total));
            append_str(&mut out, " MB (");
            if total == 0 {
                if free == 0 {
                    append_str(&mut out, "NaN");
                } else {
                    append_str(&mut out, "-inf");
                }
            } else {
                if negative {
                    out.push('-');
                }
                let p = percent_parts(used, total);
                assert(p.0 <= 0x800_0000_0000_0000_0000) by (nonlinear_arith)
                    requires
                        used <= 0x4_0000_0000_0000_0000,
                        total >= 1,
                        p.0 <= 0x2000_0000_0000_0000 || p.0 * total <= 512 * used,
                        used == 0 ==> p.0 == 0,
                ;
                append(&mut out, &one_place_digits(round_ratio(10 * p.0, p.1)));
            }
            append_str(&mut out, "% used)");
        },
        Err(cause) => {
            append_str(&mut out, "Unknown: ");
            append_str(&mut out, cause.as_str());
        },
    }
    string_of(&out)
}

/// The reading that the first reply holds: the counters, or the cause of
/// the failure; any other reply is a failure without a cause.
pub open spec fn memory_reading(replies: Seq<Reply>) -> Result<MemoryReading, Seq<char>> {
    if replies.len() > 0 {
        match replies[0] {
            Reply::Memory(reading) => Ok(reading),
            Reply::Failed(cause) => Err(cause),
            _ => Err(Seq::empty()),
        }
    } else {
        Err(Seq::empty())
    }
}

/// What the memory probe does after the replies so far: it asks for the
/// memory counters, and shows the usage once that is answered.
pub open spec fn memory_move(replies: Seq<Reply>) -> Move {
    if replies.len() == 0 {
        Move::Ask(Source::MemoryCounters)
    } else {
        Move::Done(memory_text(memory_reading(replies)))
    }
}

/// The next step of the memory probe, given the answers so far.
pub fn memory_step(answers: &Vec<Answer>) -> (step: Step)
    ensures
        step@ == memory_move(replies(answers@)),
{
    if answers.len() == 0 {
        Step::Ask(EvidenceSource::MemoryCounters)
    } else {
        let reading: Result<MemoryReading, String> = match &answers[0] {
            Answer::Memory(reading) => Ok(*reading),
            Answer::Failed(cause) => Err(cause.clone()),
            _ => Err(String::new()),
        };
        Step::Done(get_memory_usage(&reading))
    }
}

/// The memory usage is never shown as nothing.
pub proof fn lemma_memory_nonempty(reading: Result<MemoryReading, Seq<char>>)
    ensures
        memory_text(reading).len() > 0,
{
    reveal_strlit("Unknown: ");
    reveal_strlit("% used)");
}

} // verus!
