//! Host-information probes.
//!
//! A probe determines one attribute of the running machine (its model, its
//! operating system, its processor and so on) and shows it as one line of
//! text. Probes never touch the machine themselves. A probe is a function
//! from the answers gathered so far to its next step: the source of evidence
//! to consult next, or the text to show. Whoever drives a probe consults the
//! source, adds the answer and asks again ([`summary::probe_step`]).
//!
//! Every probe is total: a missing file, a command that fails or a request
//! that times out is an absent answer, and where nothing can be determined
//! the probe shows `Unknown`.

pub mod binary;
pub mod cpu;
pub mod gpu;
pub mod json;
pub mod memory;
pub mod model;
pub mod number;
pub mod os_family;
pub mod os_version;
pub mod packages;
pub mod probe;
pub mod render;
pub mod shell;
pub mod summary;
pub mod text;
pub mod uptime;
pub mod user;
