//! Sampling of byte counters for a metrics exporter.
//!
//! A [`MetricsTask`] keeps the last sample of each I/O type. On every tick it
//! takes a new sample and returns what was added since the last one; to hand
//! that to the exporter is left to the caller.

use std::sync::Arc;
use vstd::prelude::*;

use crate::rate_limiter::IORateLimiterStatistics;
use crate::{saturating_i64, IOBytes, IOOp, IOType};

verus! {

/// Where the byte counts of a sample come from.
pub enum BytesFetcher {
    /// Fetch IO statistics from the records of a rate limiter.
    ByRateLimiter(Arc<IORateLimiterStatistics>),
    /// Fetch IO statistics from an IO snooper, which the caller reads.
    ByIOSnooper(),
}

/// The count `n` as a signed number, held at the largest.
fn as_counted(n: usize) -> (bytes: i64)
    ensures
        bytes == saturating_i64(n as int),
        bytes >= 0,
{
    let wide: u64 = n as u64;
    if wide > i64::MAX as u64 {
        i64::MAX
    } else {
        wide as i64
    }
}

impl BytesFetcher {
    /// The bytes of `io_type` so far. `snooped` is what the caller read from
    /// the IO snooper for that type; it is the answer where the snooper is
    /// the source, and is not looked at otherwise.
    pub fn fetch(&self, io_type: IOType, snooped: IOBytes) -> (bytes: IOBytes)
        ensures
            self is ByIOSnooper ==> bytes == snooped,
            self is ByRateLimiter ==> bytes.read >= 0 && bytes.write >= 0,
    {
        match self {
            BytesFetcher::ByRateLimiter(recorder) => IOBytes {
                read: as_counted(recorder.fetch(io_type, IOOp::Read)),
                write: as_counted(recorder.fetch(io_type, IOOp::Write)),
            },
            BytesFetcher::ByIOSnooper() => snooped,
        }
    }
}

/// Samples the byte counters of every I/O type.
pub struct MetricsTask {
    fetcher: BytesFetcher,
    last_fetch: [IOBytes; IOType::COUNT],
}

impl MetricsTask {
    /// The last sample of `io_type`.
    pub closed spec fn last_sample(&self, io_type: IOType) -> IOBytes {
        self.last_fetch@[io_type.ordinal()]
    }

    /// Where the samples come from.
    pub closed spec fn source(&self) -> BytesFetcher {
        self.fetcher
    }

    /// Whether samples come from an IO snooper.
    pub open spec fn snoops(&self) -> bool {
        self.source() is ByIOSnooper
    }

    /// A task that takes its samples from `fetcher` and whose last sample of
    /// every type is zero.
    pub fn new(fetcher: BytesFetcher) -> (task: Self)
        ensures
            forall|io_type: IOType| task.last_sample(io_type) == (IOBytes { read: 0, write: 0 }),
            task.source() == fetcher,
    {
        MetricsTask { fetcher, last_fetch: [IOBytes { read: 0, write: 0 };IOType::COUNT] }
    }

    /// The last sample of `io_type`.
    pub fn last_fetch(&self, io_type: IOType) -> (bytes: IOBytes)
        ensures
            bytes == self.last_sample(io_type),
    {
        self.last_fetch[io_type.index()]
    }

    /// Takes a new sample of `io_type` and returns what was added since the
    /// last one. `snooped` is what the caller read from the IO snooper for
    /// that type.
    pub fn flush_io_bytes(&mut self, io_type: IOType, snooped: IOBytes) -> (delta_bytes: IOBytes)
        ensures
            delta_bytes == final(self).last_sample(io_type).since_spec(
                old(self).last_sample(io_type),
            ),
            old(self).snoops() ==> final(self).last_sample(io_type) == snooped,
            forall|other: IOType|
                other != io_type ==> final(self).last_sample(other) == old(self).last_sample(
                    other,
                ),
            final(self).source() == old(self).source(),
    {
        let bytes = self.fetcher.fetch(io_type, snooped);
        let delta_bytes = bytes.since(self.last_fetch[io_type.index()]);
        self.last_fetch[io_type.index()] = bytes;
        delta_bytes
    }

    /// Takes a new sample of every type and returns, by the type's ordinal,
    /// what was added since the last tick. `snooped` holds, by the type's
    /// ordinal, what the caller read from the IO snooper.
    pub fn on_tick(&mut self, snooped: &[IOBytes; IOType::COUNT]) -> (deltas: [IOBytes;
        IOType::COUNT])
        ensures
            forall|io_type: IOType|
                deltas@[io_type.ordinal()] == final(self).last_sample(io_type).since_spec(
                    old(self).last_sample(io_type),
                ),
            old(self).snoops() ==> forall|io_type: IOType|
                final(self).last_sample(io_type) == snooped@[io_type.ordinal()],
            final(self).source() == old(self).source(),
    {
        let other = self.flush_io_bytes(IOType::Other, snooped[IOType::Other.index()]);
        let foreground_read = self.flush_io_bytes(
            IOType::ForegroundRead,
            snooped[IOType::ForegroundRead.index()],
        );
        let foreground_write = self.flush_io_bytes(
            IOType::ForegroundWrite,
            snooped[IOType::ForegroundWrite.index()],
        );
        let flush = self.flush_io_bytes(IOType::Flush, snooped[IOType::Flush.index()]);
        let compaction = self.flush_io_bytes(
            IOType::Compaction,
            snooped[IOType::Compaction.index()],
        );
        let replication = self.flush_io_bytes(
            IOType::Replication,
            snooped[IOType::Replication.index()],
        );
        let load_balance = self.flush_io_bytes(
            IOType::LoadBalance,
            snooped[IOType::LoadBalance.index()],
        );
        let import = self.flush_io_bytes(IOType::Import, snooped[IOType::Import.index()]);
        let export = self.flush_io_bytes(IOType::Export, snooped[IOType::Export.index()]);
        [
            other,
            foreground_read,
            foreground_write,
            flush,
            compaction,
            replication,
            load_balance,
            import,
            export,
        ]
    }
}

} // verus!
