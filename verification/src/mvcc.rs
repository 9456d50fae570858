//! Errors of multi-version concurrency control.

use vstd::prelude::*;

verus! {

/// Kind of a committed write.
#[derive(Clone, Copy, Debug, PartialEq, Eq, Structural)]
pub enum WriteType {
    Put,
    Delete,
    Lock,
    Rollback,
}

/// A committed write.
#[derive(Debug, PartialEq, Eq)]
pub struct Write {
    pub write_type: WriteType,
    pub start_ts: u64,
    pub short_value: Option<Vec<u8>>,
}

/// A [`Write`] as plain values.
pub struct WriteView {
    pub write_type: WriteType,
    pub start_ts: u64,
    pub short_value: Option<Seq<u8>>,
}

impl View for Write {
    type V = WriteView;

    open spec fn view(&self) -> WriteView {
        WriteView {
            write_type: self.write_type,
            start_ts: self.start_ts,
            short_value: match self.short_value {
                Some(value) => Some(value@),
                None => None,
            },
        }
    }
}

impl Clone for Write {
    fn clone(&self) -> (copy: Write)
        ensures
            copy@ == self@,
    {
        Write {
            write_type: self.write_type,
            start_ts: self.start_ts,
            short_value: match &self.short_value {
                Some(value) => Some(value.clone()),
                None => None,
            },
        }
    }
}

/// An error of the storage engine below.
#[derive(Debug, PartialEq, Eq)]
pub enum EngineError {
    /// The engine refused the request; the error header it sent, encoded.
    Request(Vec<u8>),
    /// The request timed out after so many milliseconds.
    Timeout(u64),
    EmptyRequest,
    /// Any other error, with its message.
    Other(String),
}

/// An [`EngineError`] as plain values.
pub enum EngineErrorView {
    Request(Seq<u8>),
    Timeout(u64),
    EmptyRequest,
    Other(Seq<char>),
}

impl View for EngineError {
    type V = EngineErrorView;

    open spec fn view(&self) -> EngineErrorView {
        match self {
            EngineError::Request(header) => EngineErrorView::Request(header@),
            EngineError::Timeout(millis) => EngineErrorView::Timeout(*millis),
            EngineError::EmptyRequest => EngineErrorView::EmptyRequest,
            EngineError::Other(message) => EngineErrorView::Other(message@),
        }
    }
}

impl EngineError {
    /// A copy of the error, unless it is one of unknown kind.
    pub fn maybe_clone(&self) -> (copy: Option<EngineError>)
        ensures
            copy is None <==> self is Other,
            copy matches Some(e) ==> e@ == self@,
    {
        match self {
            EngineError::Request(header) => Some(EngineError::Request(header.clone())),
            EngineError::Timeout(millis) => Some(EngineError::Timeout(*millis)),
            EngineError::EmptyRequest => Some(EngineError::EmptyRequest),
            EngineError::Other(_) => None,
        }
    }
}

/// An error in decoding a key or a value.
#[derive(Debug, PartialEq, Eq)]
pub enum CodecError {
    /// An I/O error, with its message.
    Io(String),
    KeyLength,
    KeyPadding,
    KeyNotFound,
}

impl CodecError {
    /// A copy of the error, unless it is an I/O error.
    pub fn maybe_clone(&self) -> (copy: Option<CodecError>)
        ensures
            copy is None <==> self is Io,
            copy matches Some(e) ==> e == *self,
    {
        match self {
            CodecError::KeyLength => Some(CodecError::KeyLength),
            CodecError::KeyPadding => Some(CodecError::KeyPadding),
            CodecError::KeyNotFound => Some(CodecError::KeyNotFound),
            CodecError::Io(_) => None,
        }
    }
}

/// An error of a transaction.
#[derive(Debug, PartialEq, Eq)]
pub enum Error {
    Engine(EngineError),
    /// An I/O error, with its message.
    Io(String),
    Codec(CodecError),
    KeyIsLocked { key: Vec<u8>, primary: Vec<u8>, ts: u64, ttl: u64, txn_size: u64 },
    BadFormatLock,
    BadFormatWrite,
    Committed { commit_ts: u64 },
    PessimisticLockRollbacked { start_ts: u64, key: Vec<u8> },
    TxnLockNotFound { start_ts: u64, commit_ts: u64, key: Vec<u8> },
    LockTypeNotMatch { start_ts: u64, key: Vec<u8>, pessimistic: bool },
    WriteConflict {
        start_ts: u64,
        conflict_start_ts: u64,
        conflict_commit_ts: u64,
        key: Vec<u8>,
        primary: Vec<u8>,
    },
    Deadlock { start_ts: u64, lock_ts: u64, key_hash: u64, deadlock_key_hash: u64 },
    AlreadyExist { key: Vec<u8> },
    DefaultNotFound { key: Vec<u8>, write: Write },
    KeyVersion,
    PessimisticLockNotFound { start_ts: u64, key: Vec<u8> },
    /// Any other error, with its message.
    Other(String),
}

/// An [`Error`] as plain values.
pub enum ErrorView {
    Engine(EngineErrorView),
    Io(Seq<char>),
    Codec(CodecError),
    KeyIsLocked { key: Seq<u8>, primary: Seq<u8>, ts: u64, ttl: u64, txn_size: u64 },
    BadFormatLock,
    BadFormatWrite,
    Committed { commit_ts: u64 },
    PessimisticLockRollbacked { start_ts: u64, key: Seq<u8> },
    TxnLockNotFound { start_ts: u64, commit_ts: u64, key: Seq<u8> },
    LockTypeNotMatch { start_ts: u64, key: Seq<u8>, pessimistic: bool },
    WriteConflict {
        start_ts: u64,
        conflict_start_ts: u64,
        conflict_commit_ts: u64,
        key: Seq<u8>,
        primary: Seq<u8>,
    },
    Deadlock { start_ts: u64, lock_ts: u64, key_hash: u64, deadlock_key_hash: u64 },
    AlreadyExist { key: Seq<u8> },
    DefaultNotFound { key: Seq<u8>, write: WriteView },
    KeyVersion,
    PessimisticLockNotFound { start_ts: u64, key: Seq<u8> },
    Other(Seq<char>),
}

impl View for Error {
    type V = ErrorView;

    open spec fn view(&self) -> ErrorView {
        match self {
            Error::Engine(e) => ErrorView::Engine(e@),
            Error::Io(message) => ErrorView::Io(message@),
            Error::Codec(e) => ErrorView::Codec(*e),
            Error::KeyIsLocked { key, primary, ts, ttl, txn_size } => ErrorView::KeyIsLocked {
                key: key@,
                primary: primary@,
                ts: *ts,
                ttl: *ttl,
                txn_size: *txn_size,
            },
            Error::BadFormatLock => ErrorView::BadFormatLock,
            Error::BadFormatWrite => ErrorView::BadFormatWrite,
            Error::Committed { commit_ts } => ErrorView::Committed { commit_ts: *commit_ts },
            Error::PessimisticLockRollbacked { start_ts, key } => {
                ErrorView::PessimisticLockRollbacked { start_ts: *start_ts, key: key@ }
            },
            Error::TxnLockNotFound { start_ts, commit_ts, key } => ErrorView::TxnLockNotFound {
                start_ts: *start_ts,
                commit_ts: *commit_ts,
                key: key@,
            },
            Error::LockTypeNotMatch { start_ts, key, pessimistic } => ErrorView::LockTypeNotMatch {
                start_ts: *start_ts,
                key: key@,
                pessimistic: *pessimistic,
            },
            Error::WriteConflict {
                start_ts,
                conflict_start_ts,
                conflict_commit_ts,
                key,
                primary,
            } => ErrorView::WriteConflict {
                start_ts: *start_ts,
                conflict_start_ts: *conflict_start_ts,
                conflict_commit_ts: *conflict_commit_ts,
                key: key@,
                primary: primary@,
            },
            Error::Deadlock { start_ts, lock_ts, key_hash, deadlock_key_hash } => {
                ErrorView::Deadlock {
                    start_ts: *start_ts,
                    lock_ts: *lock_ts,
                    key_hash: *key_hash,
                    deadlock_key_hash: *deadlock_key_hash,
                }
            },
            Error::AlreadyExist { key } => ErrorView::AlreadyExist { key: key@ },
            Error::DefaultNotFound { key, write } => ErrorView::DefaultNotFound {
                key: key@,
                write: write@,
            },
            Error::KeyVersion => ErrorView::KeyVersion,
            Error::PessimisticLockNotFound { start_ts, key } => {
                ErrorView::PessimisticLockNotFound { start_ts: *start_ts, key: key@ }
            },
            Error::Other(message) => ErrorView::Other(message@),
        }
    }
}

impl Error {
    /// Whether the error can be copied: every error can, but an I/O error,
    /// one of unknown kind, and one that holds such an error of the engine or
    /// of the codec.
    pub open spec fn can_clone(&self) -> bool {
        match self {
            Error::Io(_) | Error::Other(_) => false,
            Error::Engine(e) => !(e is Other),
            Error::Codec(e) => !(e is Io),
            _ => true,
        }
    }

    /// A copy of the error, if it can be copied.
    pub fn maybe_clone(&self) -> (copy: Option<Error>)
        ensures
            copy is Some <==> self.can_clone(),
            copy matches Some(e) ==> e@ == self@,
    {
        match self {
            Error::Engine(e) => match e.maybe_clone() {
                Some(e) => Some(Error::Engine(e)),
                None => None,
            },
            Error::Codec(e) => match e.maybe_clone() {
                Some(e) => Some(Error::Codec(e)),
                None => None,
            },
            Error::KeyIsLocked { key, primary, ts, ttl, txn_size } => Some(
                Error::KeyIsLocked {
                    key: key.clone(),
                    primary: primary.clone(),
                    ts: *ts,
                    ttl: *ttl,
                    txn_size: *txn_size,
                },
            ),
            Error::BadFormatLock => Some(Error::BadFormatLock),
            Error::BadFormatWrite => Some(Error::BadFormatWrite),
            Error::TxnLockNotFound { start_ts, commit_ts, key } => Some(
                Error::TxnLockNotFound {
                    start_ts: *start_ts,
                    commit_ts: *commit_ts,
                    key: key.clone(),
                },
            ),
            Error::LockTypeNotMatch { start_ts, key, pessimistic } => Some(
                Error::LockTypeNotMatch {
                    start_ts: *start_ts,
                    key: key.clone(),
                    pessimistic: *pessimistic,
                },
            ),
            Error::WriteConflict {
                start_ts,
                conflict_start_ts,
                conflict_commit_ts,
                key,
                primary,
            } => Some(
                Error::WriteConflict {
                    start_ts: *start_ts,
                    conflict_start_ts: *conflict_start_ts,
                    conflict_commit_ts: *conflict_commit_ts,
                    key: key.clone(),
                    primary: primary.clone(),
                },
            ),
            Error::Deadlock { start_ts, lock_ts, key_hash, deadlock_key_hash } => Some(
                Error::Deadlock {
                    start_ts: *start_ts,
                    lock_ts: *lock_ts,
                    key_hash: *key_hash,
                    deadlock_key_hash: *deadlock_key_hash,
                },
            ),
            Error::AlreadyExist { key } => Some(Error::AlreadyExist { key: key.clone() }),
            Error::DefaultNotFound { key, write } => Some(
                Error::DefaultNotFound { key: key.clone(), write: write.clone() },
            ),
            Error::KeyVersion => Some(Error::KeyVersion),
            Error::Committed { commit_ts } => Some(Error::Committed { commit_ts: *commit_ts }),
            Error::PessimisticLockRollbacked { start_ts, key } => Some(
                Error::PessimisticLockRollbacked { start_ts: *start_ts, key: key.clone() },
            ),
            Error::PessimisticLockNotFound { start_ts, key } => Some(
                Error::PessimisticLockNotFound { start_ts: *start_ts, key: key.clone() },
            ),
            Error::Io(_) | Error::Other(_) => None,
        }
    }
}

/// The error for a write whose value is missing from the default column
/// family. `hint` says where it was missed and is for the caller's log.
pub fn default_not_found_error(key: Vec<u8>, write: Write, hint: &str) -> (error: Error)
    ensures
        error@ == (ErrorView::DefaultNotFound { key: key@, write: write@ }),
{
    Error::DefaultNotFound { key, write }
}

} // verus!
