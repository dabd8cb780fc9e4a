//! What a process uses at the moment it is looked up.

use vstd::prelude::*;
use vstd::string::*;
use crate::text::{decimal, push_decimal};

verus! {

/// The scheduling state of a process.
#[derive(Debug, Clone, Copy, PartialEq, Eq)]
pub enum ProcessStatus {
    Idle,
    Run,
    Sleep,
    Stop,
    Zombie,
    Tracing,
    Dead,
    Wakekill,
    Waking,
    Parked,
    LockBlocked,
    UninterruptibleDiskSleep,
    Unknown(u32),
}

impl ProcessStatus {
    /// The name under which the status is shown. A status that has no name
    /// shows its number.
    pub open spec fn label(self) -> Seq<char> {
        match self {
            ProcessStatus::Idle => "Idle"@,
            ProcessStatus::Run => "Run"@,
            ProcessStatus::Sleep => "Sleep"@,
            ProcessStatus::Stop => "Stop"@,
            ProcessStatus::Zombie => "Zombie"@,
            ProcessStatus::Tracing => "Tracing"@,
            ProcessStatus::Dead => "Dead"@,
            ProcessStatus::Wakekill => "Wakekill"@,
            ProcessStatus::Waking => "Waking"@,
            ProcessStatus::Parked => "Parked"@,
            ProcessStatus::LockBlocked => "LockBlocked"@,
            ProcessStatus::UninterruptibleDiskSleep => "UninterruptibleDiskSleep"@,
            ProcessStatus::Unknown(code) => "Unknown("@ + decimal(code as nat) + ")"@,
        }
    }

    /// Appends to `out` the name under which the status is shown.
    pub fn push_name(&self, out: &mut String)
        ensures
            final(out)@ == old(out)@ + self.label(),
    {
        match self {
            ProcessStatus::Idle => out.append("Idle"),
            ProcessStatus::Run => out.append("Run"),
            ProcessStatus::Sleep => out.append("Sleep"),
            ProcessStatus::Stop => out.append("Stop"),
            ProcessStatus::Zombie => out.append("Zombie"),
            ProcessStatus::Tracing => out.append("Tracing"),
            ProcessStatus::Dead => out.append("Dead"),
            ProcessStatus::Wakekill => out.append("Wakekill"),
            ProcessStatus::Waking => out.append("Waking"),
            ProcessStatus::Parked => out.append("Parked"),
            ProcessStatus::LockBlocked => out.append("LockBlocked"),
            ProcessStatus::UninterruptibleDiskSleep => out.append("UninterruptibleDiskSleep"),
            ProcessStatus::Unknown(code) => {
                out.append("Unknown(");
                push_decimal(out, *code as u64);
                out.append(")");
                assert(out@ =~= old(out)@ + self.label());
            },
        }
    }
}

/// The resources of one process: who it is, and what it takes of the
/// processor and of memory. The processor share is counted in hundredths of
/// a percent, the resident memory in kibibytes.
#[derive(Debug, PartialEq, Eq)]
pub struct ProcessUsage {
    pub pid: u32,
    pub name: String,
    pub status: ProcessStatus,
    pub cpu_hundredths: u64,
    pub memory_kb: u64,
}

/// The number of bytes in a kibibyte.
pub const BYTES_PER_KIB: u64 = 1024;

/// The whole kibibytes in `bytes`.
pub fn kib_from_bytes(bytes: u64) -> (kib: u64)
    ensures
        kib == bytes / BYTES_PER_KIB,
{
    bytes / BYTES_PER_KIB
}

} // verus!
