//! What the raft log engine shares with the rest: the marker type of its
//! entries, and its errors as callers of the engine see them.

use raft_engine::Error as RaftEngineError;
use vstd::prelude::*;

verus! {

#[verifier::external_type_specification]
#[verifier::external_body]
pub struct ExRaftEngineError(RaftEngineError);

/// Marks log batches whose entries are raft entries.
#[derive(Clone, Copy, Debug, PartialEq, Eq, Structural)]
pub struct MessageExtTyped;

/// What went wrong in the raft log engine.
#[derive(Debug, PartialEq, Eq)]
pub enum Failure {
    /// The entries asked for have been compacted away.
    Compacted,
    /// The entries asked for are not in the log.
    Unavailable,
    /// Anything else, with the engine's own words.
    Other(String),
}

/// An error of the engine as its callers see it.
#[derive(Debug, PartialEq, Eq)]
pub enum Error {
    EntriesCompacted,
    EntriesUnavailable,
    Other(String),
}

impl Error {
    /// The error for `failure`: the two failures that callers act on keep
    /// their meaning, every other keeps its message.
    pub open spec fn of(failure: Failure) -> Error {
        match failure {
            Failure::Compacted => Error::EntriesCompacted,
            Failure::Unavailable => Error::EntriesUnavailable,
            Failure::Other(message) => Error::Other(message),
        }
    }
}

/// Tells the variants of `raft_engine::Error` apart: `EntryCompacted`,
/// `EntryNotFound`, and every other with the text that its `Display` gives.
/// Nothing is claimed of the result.
#[verifier::external_body]
fn failure_of(e: RaftEngineError) -> Failure {
    match e {
        RaftEngineError::EntryCompacted => Failure::Compacted,
        RaftEngineError::EntryNotFound => Failure::Unavailable,
        e => Failure::Other(format!("{}", e)),
    }
}

/// The error for `failure`.
pub fn transfer_failure(failure: Failure) -> (error: Error)
    ensures
        error == Error::of(failure),
{
    match failure {
        Failure::Compacted => Error::EntriesCompacted,
        Failure::Unavailable => Error::EntriesUnavailable,
        Failure::Other(message) => Error::Other(message),
    }
}

/// The error, as callers of the engine see it, for an error of
/// `raft_engine`: what [`transfer_failure`] makes of the kind of failure that
/// the error is found to be.
pub fn transfer_error(e: RaftEngineError) -> Error {
    transfer_failure(failure_of(e))
}

} // verus!
