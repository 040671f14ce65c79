//! The closed taxonomy of backup-layer errors.
//!
//! Every upstream failure the backup engine can observe is normalized into
//! exactly one [`Error`] variant. Opaque upstream payloads (boxed errors,
//! I/O errors, unclassified engine or transaction failures) are carried as
//! their rendered text; structured payloads (routing detail, lock-conflict
//! fields, cluster identifiers) are carried field by field, unchanged, so
//! the wire translation can copy them verbatim.
//!
//! Construction is total: each constructor accepts every value of its
//! upstream type and never fails.

use vstd::prelude::*;

use crate::wire::RegionError;
use crate::wire::RegionErrorView;

verus! {

/// A failure surfaced by the key-value engine.
#[derive(Clone, Debug, PartialEq, Eq)]
pub enum EngineError {
    /// A region-routing failure, copied verbatim from the engine.
    Request(RegionError),
    /// An engine timeout; carries the human-readable rendering of the
    /// timeout condition.
    Timeout(String),
    /// Any other engine failure, carried as its rendered text.
    Other(String),
}

/// Mathematical model of an [`EngineError`].
#[verifier::ext_equal]
pub ghost enum EngineErrorView {
    Request(RegionErrorView),
    Timeout(Seq<char>),
    Other(Seq<char>),
}

impl View for EngineError {
    type V = EngineErrorView;

    open spec fn view(&self) -> EngineErrorView {
        match self {
            EngineError::Request(r) => EngineErrorView::Request(r@),
            EngineError::Timeout(detail) => EngineErrorView::Timeout(detail@),
            EngineError::Other(detail) => EngineErrorView::Other(detail@),
        }
    }
}

/// A failure surfaced by the MVCC layer.
#[derive(Clone, Debug, PartialEq, Eq)]
pub enum MvccError {
    /// An engine failure observed through the MVCC layer; the engine
    /// sub-case stays inspectable after wrapping.
    Engine(EngineError),
    /// A lock conflict: the touched key is held by another in-flight
    /// transaction's primary lock. All fields are kept unchanged.
    KeyIsLocked { primary: Vec<u8>, ts: u64, key: Vec<u8>, ttl: u64, txn_size: u64 },
    /// Any other MVCC failure, carried as its rendered text.
    Other(String),
}

/// Mathematical model of an [`MvccError`].
#[verifier::ext_equal]
pub ghost enum MvccErrorView {
    Engine(EngineErrorView),
    KeyIsLocked { primary: Seq<u8>, ts: u64, key: Seq<u8>, ttl: u64, txn_size: u64 },
    Other(Seq<char>),
}

impl View for MvccError {
    type V = MvccErrorView;

    open spec fn view(&self) -> MvccErrorView {
        match self {
            MvccError::Engine(e) => MvccErrorView::Engine(e@),
            MvccError::KeyIsLocked { primary, ts, key, ttl, txn_size } => MvccErrorView::KeyIsLocked {
                primary: primary@,
                ts: *ts,
                key: key@,
                ttl: *ttl,
                txn_size: *txn_size,
            },
            MvccError::Other(detail) => MvccErrorView::Other(detail@),
        }
    }
}

/// A failure surfaced by the transactional layer.
#[derive(Clone, Debug, PartialEq, Eq)]
pub enum TxnError {
    /// An engine failure observed through the transactional layer.
    Engine(EngineError),
    /// An MVCC failure observed through the transactional layer.
    Mvcc(MvccError),
    /// Any other transactional failure, carried as its rendered text.
    Other(String),
}

/// Mathematical model of a [`TxnError`].
#[verifier::ext_equal]
pub ghost enum TxnErrorView {
    Engine(EngineErrorView),
    Mvcc(MvccErrorView),
    Other(Seq<char>),
}

impl View for TxnError {
    type V = TxnErrorView;

    open spec fn view(&self) -> TxnErrorView {
        match self {
            TxnError::Engine(e) => TxnErrorView::Engine(e@),
            TxnError::Mvcc(m) => TxnErrorView::Mvcc(m@),
            TxnError::Other(detail) => TxnErrorView::Other(detail@),
        }
    }
}

/// The error type for backup: the closed taxonomy. Exactly one variant is
/// active at a time, and every upstream failure maps to exactly one.
#[derive(Clone, Debug, PartialEq, Eq)]
pub enum Error {
    /// Any failure not otherwise classified, carried as its rendered text.
    Other(String),
    /// A local storage-engine (RocksDB) failure message.
    Rocks(String),
    /// A local I/O failure during backup artifact handling, carried as its
    /// rendered text.
    Io(String),
    /// A failure surfaced by the key-value engine.
    Engine(EngineError),
    /// A failure surfaced by the transactional layer.
    Txn(TxnError),
    /// The backup request's target cluster identifier does not match the
    /// serving node's cluster identifier.
    ClusterID { current: u64, request: u64 },
}

/// Mathematical model of an [`Error`].
#[verifier::ext_equal]
pub ghost enum ErrorView {
    Other(Seq<char>),
    Rocks(Seq<char>),
    Io(Seq<char>),
    Engine(EngineErrorView),
    Txn(TxnErrorView),
    ClusterID { current: u64, request: u64 },
}

impl View for Error {
    type V = ErrorView;

    open spec fn view(&self) -> ErrorView {
        match self {
            Error::Other(detail) => ErrorView::Other(detail@),
            Error::Rocks(detail) => ErrorView::Rocks(detail@),
            Error::Io(detail) => ErrorView::Io(detail@),
            Error::Engine(e) => ErrorView::Engine(e@),
            Error::Txn(t) => ErrorView::Txn(t@),
            Error::ClusterID { current, request } => ErrorView::ClusterID {
                current: *current,
                request: *request,
            },
        }
    }
}

impl Error {
    /// Classifies an opaque, unrecognized failure, given its rendered text.
    pub fn from_other(detail: String) -> (r: Error)
        ensures
            r@ == ErrorView::Other(detail@),
    {
        Error::Other(detail)
    }

    /// Classifies a local storage-engine failure message.
    pub fn from_rocks(detail: String) -> (r: Error)
        ensures
            r@ == ErrorView::Rocks(detail@),
    {
        Error::Rocks(detail)
    }

    /// Classifies a local I/O failure, given its rendered text.
    pub fn from_io(detail: String) -> (r: Error)
        ensures
            r@ == ErrorView::Io(detail@),
    {
        Error::Io(detail)
    }

    /// Classifies a key-value engine failure, keeping its sub-case.
    pub fn from_engine(e: EngineError) -> (r: Error)
        ensures
            r@ == ErrorView::Engine(e@),
    {
        Error::Engine(e)
    }

    /// Classifies a transactional-layer failure, keeping its sub-case.
    pub fn from_txn(e: TxnError) -> (r: Error)
        ensures
            r@ == ErrorView::Txn(e@),
    {
        Error::Txn(e)
    }

    /// Classifies a cluster-identifier mismatch.
    pub fn from_cluster_id(current: u64, request: u64) -> (r: Error)
        ensures
            r@ == (ErrorView::ClusterID { current, request }),
    {
        Error::ClusterID { current, request }
    }
}

} // verus!
