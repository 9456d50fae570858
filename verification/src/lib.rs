//! Priority-based I/O rate limiting.
//!
//! Every I/O operation declares a workload class ([`IOType`]) and a direction
//! ([`IOOp`]). The limiter maps the class to an [`IOPriority`], charges the
//! requested bytes against that priority's budget for the current epoch and
//! answers with the bytes granted and the time the caller has to wait before
//! using them. Time is always handed in by the caller, in milliseconds of a
//! monotonic clock, and waiting is left to the caller as well.

use vstd::prelude::*;

pub mod epoch;
pub mod metrics_task;
pub mod model;
pub mod mvcc;
pub mod raft_log;
pub mod rate_limiter;
mod shared_state;

verus! {

/// Workload class of an I/O operation.
#[derive(Clone, Copy, Debug, PartialEq, Eq, Structural)]
pub enum IOType {
    Other,
    ForegroundRead,
    ForegroundWrite,
    Flush,
    Compaction,
    Replication,
    LoadBalance,
    Import,
    Export,
}

impl IOType {
    /// Number of workload classes.
    pub const COUNT: usize = 9;

    /// Position of the class in per-class tables.
    pub open spec fn ordinal(self) -> int {
        match self {
            IOType::Other => 0,
            IOType::ForegroundRead => 1,
            IOType::ForegroundWrite => 2,
            IOType::Flush => 3,
            IOType::Compaction => 4,
            IOType::Replication => 5,
            IOType::LoadBalance => 6,
            IOType::Import => 7,
            IOType::Export => 8,
        }
    }

    /// Position of the class in per-class tables.
    pub fn index(self) -> (i: usize)
        ensures
            i == self.ordinal(),
            i < IOType::COUNT,
    {
        match self {
            IOType::Other => 0,
            IOType::ForegroundRead => 1,
            IOType::ForegroundWrite => 2,
            IOType::Flush => 3,
            IOType::Compaction => 4,
            IOType::Replication => 5,
            IOType::LoadBalance => 6,
            IOType::Import => 7,
            IOType::Export => 8,
        }
    }
}

/// Direction of an I/O operation.
#[derive(Clone, Copy, Debug, PartialEq, Eq, Structural)]
pub enum IOOp {
    Read,
    Write,
}

/// Priority of a workload class, lowest first. `Stop` admits nothing; the
/// other three share the byte budget, each taking what the priorities above
/// it leave over.
#[derive(Clone, Copy, Debug, PartialEq, Eq, Structural)]
pub enum IOPriority {
    Stop,
    Low,
    Medium,
    High,
}

impl IOPriority {
    /// Number of priorities.
    pub const COUNT: usize = 4;

    /// Position of the priority in per-priority tables. Each active priority
    /// sits directly above the next lower one.
    pub open spec fn ordinal(self) -> int {
        match self {
            IOPriority::Stop => 0,
            IOPriority::Low => 1,
            IOPriority::Medium => 2,
            IOPriority::High => 3,
        }
    }

    /// Position of the priority in per-priority tables.
    pub fn index(self) -> (i: usize)
        ensures
            i == self.ordinal(),
            i < IOPriority::COUNT,
    {
        match self {
            IOPriority::Stop => 0,
            IOPriority::Low => 1,
            IOPriority::Medium => 2,
            IOPriority::High => 3,
        }
    }

    /// The priority directly below, which takes what this one leaves over.
    /// Nothing is below `Stop`.
    pub open spec fn lower_spec(self) -> IOPriority {
        match self {
            IOPriority::Stop => IOPriority::Stop,
            IOPriority::Low => IOPriority::Stop,
            IOPriority::Medium => IOPriority::Low,
            IOPriority::High => IOPriority::Medium,
        }
    }

    /// The priority directly below.
    #[verifier::when_used_as_spec(lower_spec)]
    pub fn lower(self) -> (below: IOPriority)
        ensures
            below == self.lower_spec(),
            self != IOPriority::Stop ==> below.ordinal() == self.ordinal() - 1,
    {
        match self {
            IOPriority::Stop => IOPriority::Stop,
            IOPriority::Low => IOPriority::Stop,
            IOPriority::Medium => IOPriority::Low,
            IOPriority::High => IOPriority::Medium,
        }
    }

    /// Label of the priority in exported metrics.
    pub fn as_str(self) -> (label: &'static str)
        ensures
            label@ == match self {
                IOPriority::Stop => "stop"@,
                IOPriority::Low => "low"@,
                IOPriority::Medium => "medium"@,
                IOPriority::High => "high"@,
            },
    {
        match self {
            IOPriority::Stop => "stop",
            IOPriority::Low => "low",
            IOPriority::Medium => "medium",
            IOPriority::High => "high",
        }
    }
}

/// The value `n`, held within the range of `i64`.
pub open spec fn saturating_i64(n: int) -> i64 {
    if n > i64::MAX {
        i64::MAX
    } else if n < i64::MIN {
        i64::MIN
    } else {
        n as i64
    }
}

/// Bytes read and written, as a metrics exporter counts them.
#[derive(Clone, Copy, Debug, PartialEq, Eq, Structural)]
pub struct IOBytes {
    pub read: i64,
    pub write: i64,
}

impl IOBytes {
    /// What was read and written since `earlier`, each held within the range
    /// of `i64`.
    pub open spec fn since_spec(self, earlier: IOBytes) -> IOBytes {
        IOBytes {
            read: saturating_i64(self.read - earlier.read),
            write: saturating_i64(self.write - earlier.write),
        }
    }

    /// What was read and written since `earlier`.
    pub fn since(self, earlier: IOBytes) -> (delta: IOBytes)
        ensures
            delta == self.since_spec(earlier),
    {
        IOBytes {
            read: difference(self.read, earlier.read),
            write: difference(self.write, earlier.write),
        }
    }
}

impl Default for IOBytes {
    fn default() -> (bytes: IOBytes)
        ensures
            bytes == (IOBytes { read: 0, write: 0 }),
    {
        IOBytes { read: 0, write: 0 }
    }
}

/// The difference `a - b`, held within the range of `i64`.
fn difference(a: i64, b: i64) -> (d: i64)
    ensures
        d == saturating_i64(a - b),
{
    if b >= 0 {
        if a < i64::MIN + b {
            i64::MIN
        } else {
            a - b
        }
    } else {
        if a > i64::MAX + b {
            i64::MAX
        } else {
            a - b
        }
    }
}

} // verus!
