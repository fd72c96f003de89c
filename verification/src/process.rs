//! The process table and its rows.

use vstd::prelude::*;

verus! {

/// What one snapshot records of one process. A record is never changed after
/// it was captured: the next snapshot replaces it.
#[derive(Clone, Debug, PartialEq, Eq)]
pub struct ProcessRecord {
    /// The numeric id by which the operating system knows the process.
    pub pid: u32,
    /// The name shown for the process.
    pub name: String,
    /// The instantaneous CPU usage in percent, as the bit pattern of a
    /// single-precision number. The core carries it and never reads it.
    pub cpu_usage_bits: u32,
    /// The resident memory in bytes.
    pub memory: u64,
}

/// The rows of one snapshot, in the order in which the snapshot gave them.
/// The order is never changed: a row index means the same process until the
/// next snapshot.
pub type ProcessTable = Vec<ProcessRecord>;

} // verus!
