//! Classification of the kernel name into the families the probes branch on.

use crate::text::{chars_of, same, string_of, trim, trimmed};
use vstd::prelude::*;

verus! {

/// The operating-system family of the running kernel.
#[derive(Debug, PartialEq, Eq)]
pub enum OsFamily {
    Linux,
    Darwin,
    /// Any other kernel, with its name as it was reported.
    Unknown(String),
}

/// What an `OsFamily` stands for.
pub enum Family {
    Linux,
    Darwin,
    Unknown(Seq<char>),
}

impl View for OsFamily {
    type V = Family;

    open spec fn view(&self) -> Family {
        match self {
            OsFamily::Linux => Family::Linux,
            OsFamily::Darwin => Family::Darwin,
            OsFamily::Unknown(raw) => Family::Unknown(raw@),
        }
    }
}

/// The family of a kernel name: `Linux` and `Darwin` for exactly these
/// names, `Unknown` with the name for every other.
pub open spec fn family_of(name: Seq<char>) -> Family {
    if name == "Linux"@ {
        Family::Linux
    } else if name == "Darwin"@ {
        Family::Darwin
    } else {
        Family::Unknown(name)
    }
}

/// Classifies a kernel name.
pub fn classify_os(name: &str) -> (family: OsFamily)
    ensures
        family@ == family_of(name@),
{
    let n = chars_of(name);
    if same(&n, &chars_of("Linux")) {
        OsFamily::Linux
    } else if same(&n, &chars_of("Darwin")) {
        OsFamily::Darwin
    } else {
        OsFamily::Unknown(string_of(&n))
    }
}

/// The kernel name in what the `uname` tool printed: its output without the
/// white space around it.
pub fn get_uname(output: &str) -> (name: String)
    ensures
        name@ == trimmed(output@),
{
    string_of(&trim(&chars_of(output)))
}

} // verus!
