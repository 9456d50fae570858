use file_system::mvcc::{
    default_not_found_error, CodecError, EngineError, Error, Write, WriteType,
};

fn write() -> Write {
    Write { write_type: WriteType::Put, start_ts: 7, short_value: Some(b"v".to_vec()) }
}

fn clonable() -> Vec<Error> {
    vec![
        Error::Engine(EngineError::Request(vec![1, 2, 3])),
        Error::Engine(EngineError::Timeout(500)),
        Error::Engine(EngineError::EmptyRequest),
        Error::Codec(CodecError::KeyLength),
        Error::Codec(CodecError::KeyPadding),
        Error::Codec(CodecError::KeyNotFound),
        Error::KeyIsLocked {
            key: b"k".to_vec(),
            primary: b"p".to_vec(),
            ts: 1,
            ttl: 2,
            txn_size: 3,
        },
        Error::BadFormatLock,
        Error::BadFormatWrite,
        Error::Committed { commit_ts: 9 },
        Error::PessimisticLockRollbacked { start_ts: 4, key: b"k".to_vec() },
        Error::TxnLockNotFound { start_ts: 4, commit_ts: 5, key: b"k".to_vec() },
        Error::LockTypeNotMatch { start_ts: 4, key: b"k".to_vec(), pessimistic: true },
        Error::WriteConflict {
            start_ts: 1,
            conflict_start_ts: 2,
            conflict_commit_ts: 3,
            key: b"k".to_vec(),
            primary: b"p".to_vec(),
        },
        Error::Deadlock { start_ts: 1, lock_ts: 2, key_hash: 3, deadlock_key_hash: 4 },
        Error::AlreadyExist { key: vec![] },
        Error::DefaultNotFound { key: b"k".to_vec(), write: write() },
        Error::DefaultNotFound {
            key: b"k".to_vec(),
            write: Write { write_type: WriteType::Rollback, start_ts: 0, short_value: None },
        },
        Error::KeyVersion,
        Error::PessimisticLockNotFound { start_ts: 4, key: b"k".to_vec() },
    ]
}

#[test]
fn test_maybe_clone_copies() {
    for error in clonable() {
        let copy = error.maybe_clone();
        assert_eq!(copy.as_ref(), Some(&error));
    }
}

#[test]
fn test_maybe_clone_refuses() {
    assert_eq!(Error::Io("broken pipe".to_string()).maybe_clone(), None);
    assert_eq!(Error::Other("unknown".to_string()).maybe_clone(), None);
    assert_eq!(Error::Engine(EngineError::Other("unknown".to_string())).maybe_clone(), None);
    assert_eq!(Error::Codec(CodecError::Io("eof".to_string())).maybe_clone(), None);
}

#[test]
fn test_maybe_clone_of_inner_errors() {
    assert_eq!(
        EngineError::Request(vec![9]).maybe_clone(),
        Some(EngineError::Request(vec![9]))
    );
    assert_eq!(EngineError::Timeout(3).maybe_clone(), Some(EngineError::Timeout(3)));
    assert_eq!(EngineError::EmptyRequest.maybe_clone(), Some(EngineError::EmptyRequest));
    assert_eq!(EngineError::Other("x".to_string()).maybe_clone(), None);
    assert_eq!(CodecError::KeyLength.maybe_clone(), Some(CodecError::KeyLength));
    assert_eq!(CodecError::KeyPadding.maybe_clone(), Some(CodecError::KeyPadding));
    assert_eq!(CodecError::KeyNotFound.maybe_clone(), Some(CodecError::KeyNotFound));
    assert_eq!(CodecError::Io("x".to_string()).maybe_clone(), None);
}

#[test]
fn test_write_clone() {
    let w = write();
    assert_eq!(w.clone(), w);
    let w = Write { write_type: WriteType::Delete, start_ts: u64::MAX, short_value: None };
    assert_eq!(w.clone(), w);
}

#[test]
fn test_default_not_found_error() {
    let error = default_not_found_error(b"key".to_vec(), write(), "get");
    assert_eq!(error, Error::DefaultNotFound { key: b"key".to_vec(), write: write() });
}
