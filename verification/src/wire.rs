//! The wire-level error schema and the metrics classification labels.
//!
//! A translated failure is exactly one of four shapes: a cluster-id
//! mismatch, a region (routing) error, a key error carrying lock-conflict
//! detail, or a plain text message. Each shape is modelled as one variant
//! of [`WireError`], so exactly one shape is populated by construction.

use vstd::prelude::*;

verus! {

/// A region-routing failure reason, at most one per routing error.
#[derive(Clone, Debug, PartialEq, Eq)]
pub enum RegionReason {
    NotLeader,
    RegionNotFound,
    KeyNotInRegion,
    EpochNotMatch,
    ServerIsBusy { reason: String },
    StaleCommand,
    StoreNotMatch,
}

/// Mathematical model of a [`RegionReason`].
#[verifier::ext_equal]
pub ghost enum RegionReasonView {
    NotLeader,
    RegionNotFound,
    KeyNotInRegion,
    EpochNotMatch,
    ServerIsBusy { reason: Seq<char> },
    StaleCommand,
    StoreNotMatch,
}

impl View for RegionReason {
    type V = RegionReasonView;

    open spec fn view(&self) -> RegionReasonView {
        match self {
            RegionReason::NotLeader => RegionReasonView::NotLeader,
            RegionReason::RegionNotFound => RegionReasonView::RegionNotFound,
            RegionReason::KeyNotInRegion => RegionReasonView::KeyNotInRegion,
            RegionReason::EpochNotMatch => RegionReasonView::EpochNotMatch,
            RegionReason::ServerIsBusy { reason } => RegionReasonView::ServerIsBusy {
                reason: reason@,
            },
            RegionReason::StaleCommand => RegionReasonView::StaleCommand,
            RegionReason::StoreNotMatch => RegionReasonView::StoreNotMatch,
        }
    }
}

/// A region (routing) error: a human-readable message and at most one
/// recognized routing reason. This is both the form in which a routing
/// failure reaches the classifier and the region-error wire shape, which
/// copies the failure verbatim. An upstream representation that can flag
/// several reasons at once is reduced at the edge to the first recognized
/// one, in the order the [`RegionReason`] variants are declared.
#[derive(Clone, Debug, PartialEq, Eq)]
pub struct RegionError {
    pub message: String,
    pub reason: Option<RegionReason>,
}

/// Mathematical model of a [`RegionError`].
#[verifier::ext_equal]
pub ghost struct RegionErrorView {
    pub message: Seq<char>,
    pub reason: Option<RegionReasonView>,
}

impl View for RegionError {
    type V = RegionErrorView;

    open spec fn view(&self) -> RegionErrorView {
        RegionErrorView {
            message: self.message@,
            reason: match self.reason {
                Some(r) => Some(r@),
                None => None,
            },
        }
    }
}

/// Lock-conflict detail carried by the key-error wire shape.
#[derive(Clone, Debug, PartialEq, Eq)]
pub struct LockInfo {
    pub primary_lock: Vec<u8>,
    pub lock_version: u64,
    pub key: Vec<u8>,
    pub lock_ttl: u64,
    pub txn_size: u64,
}

/// Mathematical model of a [`LockInfo`].
#[verifier::ext_equal]
pub ghost struct LockInfoView {
    pub primary_lock: Seq<u8>,
    pub lock_version: u64,
    pub key: Seq<u8>,
    pub lock_ttl: u64,
    pub txn_size: u64,
}

impl View for LockInfo {
    type V = LockInfoView;

    open spec fn view(&self) -> LockInfoView {
        LockInfoView {
            primary_lock: self.primary_lock@,
            lock_version: self.lock_version,
            key: self.key@,
            lock_ttl: self.lock_ttl,
            txn_size: self.txn_size,
        }
    }
}

/// The wire error message: exactly one shape per translated failure.
#[derive(Clone, Debug, PartialEq, Eq)]
pub enum WireError {
    ClusterIdError { current: u64, request: u64 },
    RegionError(RegionError),
    KeyError { locked: LockInfo },
    PlainMessage { text: String },
}

/// Mathematical model of a [`WireError`].
#[verifier::ext_equal]
pub ghost enum WireErrorView {
    ClusterIdError { current: u64, request: u64 },
    RegionError(RegionErrorView),
    KeyError { locked: LockInfoView },
    PlainMessage { text: Seq<char> },
}

impl View for WireError {
    type V = WireErrorView;

    open spec fn view(&self) -> WireErrorView {
        match self {
            WireError::ClusterIdError { current, request } => WireErrorView::ClusterIdError {
                current: *current,
                request: *request,
            },
            WireError::RegionError(r) => WireErrorView::RegionError(r@),
            WireError::KeyError { locked } => WireErrorView::KeyError { locked: locked@ },
            WireError::PlainMessage { text } => WireErrorView::PlainMessage { text: text@ },
        }
    }
}

/// How many of the four wire shapes a message populates. A message is one
/// enum value, so this is one for every message; the translation laws
/// state it explicitly.
pub open spec fn populated_shapes(w: WireErrorView) -> int {
    (if w matches WireErrorView::ClusterIdError { .. } {
        1int
    } else {
        0int
    }) + (if w matches WireErrorView::RegionError(_) {
        1int
    } else {
        0int
    }) + (if w matches WireErrorView::KeyError { .. } {
        1int
    } else {
        0int
    }) + (if w matches WireErrorView::PlainMessage { .. } {
        1int
    } else {
        0int
    })
}

/// The metrics classification label: the fixed vocabulary under which
/// translated failures are counted.
#[derive(Clone, Copy, Debug, PartialEq, Eq, Structural)]
pub enum Label {
    ClusterMismatch,
    NotLeader,
    RegionNotFound,
    KeyNotInRegion,
    EpochNotMatch,
    ServerIsBusy,
    StaleCommand,
    StoreNotMatch,
    KeyIsLocked,
    Timeout,
    Other,
}

/// The string form of a label, as the metrics sink keys it.
pub open spec fn label_text(label: Label) -> Seq<char> {
    match label {
        Label::ClusterMismatch => "cluster_mismatch"@,
        Label::NotLeader => "not_leader"@,
        Label::RegionNotFound => "region_not_found"@,
        Label::KeyNotInRegion => "key_not_in_region"@,
        Label::EpochNotMatch => "epoch_not_match"@,
        Label::ServerIsBusy => "server_is_busy"@,
        Label::StaleCommand => "stale_command"@,
        Label::StoreNotMatch => "store_not_match"@,
        Label::KeyIsLocked => "key_is_locked"@,
        Label::Timeout => "timeout"@,
        Label::Other => "other"@,
    }
}

/// The string under which a counter for `label` is registered.
pub fn label_name(label: Label) -> (r: &'static str)
    ensures
        r@ == label_text(label),
{
    match label {
        Label::ClusterMismatch => "cluster_mismatch",
        Label::NotLeader => "not_leader",
        Label::RegionNotFound => "region_not_found",
        Label::KeyNotInRegion => "key_not_in_region",
        Label::EpochNotMatch => "epoch_not_match",
        Label::ServerIsBusy => "server_is_busy",
        Label::StaleCommand => "stale_command",
        Label::StoreNotMatch => "store_not_match",
        Label::KeyIsLocked => "key_is_locked",
        Label::Timeout => "timeout",
        Label::Other => "other",
    }
}

} // verus!
