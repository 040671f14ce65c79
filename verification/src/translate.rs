//! Pure, total translation of a classified failure into a wire message
//! and a metrics classification label.
//!
//! The translation rules, in priority order (first match wins):
//!
//! 1. a cluster-identifier mismatch becomes the cluster-id-error shape,
//!    label `cluster_mismatch`;
//! 2. a region-routing failure — whether it surfaces directly from the
//!    engine, one level inside a transaction error, or two levels inside a
//!    transaction error through the MVCC layer — is copied verbatim into
//!    the region-error shape; the label names the routing reason when one
//!    of the seven recognized reasons is present, and no label is produced
//!    otherwise (the client still receives routing semantics);
//! 3. a lock conflict becomes the key-error shape with the lock descriptor
//!    copied field by field, label `key_is_locked`;
//! 4. a raw engine timeout becomes a region-error shape whose message and
//!    nested server-is-busy reason both carry the timeout's rendering,
//!    label `timeout`;
//! 5. everything else becomes a plain text message carrying the failure's
//!    rendered text, label `other`.

use vstd::prelude::*;

use crate::model::EngineError;
use crate::model::EngineErrorView;
use crate::model::Error;
use crate::model::ErrorView;
use crate::model::MvccError;
use crate::model::MvccErrorView;
use crate::model::TxnError;
use crate::model::TxnErrorView;
use crate::wire::Label;
use crate::wire::LockInfo;
use crate::wire::LockInfoView;
use crate::wire::RegionError;
use crate::wire::RegionErrorView;
use crate::wire::RegionReason;
use crate::wire::RegionReasonView;
use crate::wire::WireError;
use crate::wire::WireErrorView;

verus! {

/// The routing failure inside an error, regardless of wrapping depth:
/// a routing failure reaches the classifier directly from the engine,
/// one level inside a transaction error, or two levels inside a
/// transaction error through the MVCC layer, and all three surface forms
/// are treated identically.
pub open spec fn routing_of(e: ErrorView) -> Option<RegionErrorView> {
    match e {
        ErrorView::Engine(EngineErrorView::Request(r)) => Some(r),
        ErrorView::Txn(TxnErrorView::Engine(EngineErrorView::Request(r))) => Some(r),
        ErrorView::Txn(TxnErrorView::Mvcc(MvccErrorView::Engine(EngineErrorView::Request(r)))) => Some(
            r,
        ),
        _ => None,
    }
}

/// The label counted for a routing failure: one per recognized reason,
/// none when the failure carries no recognized reason.
pub open spec fn reason_label(reason: Option<RegionReasonView>) -> Option<Label> {
    match reason {
        Some(RegionReasonView::NotLeader) => Some(Label::NotLeader),
        Some(RegionReasonView::RegionNotFound) => Some(Label::RegionNotFound),
        Some(RegionReasonView::KeyNotInRegion) => Some(Label::KeyNotInRegion),
        Some(RegionReasonView::EpochNotMatch) => Some(Label::EpochNotMatch),
        Some(RegionReasonView::ServerIsBusy { .. }) => Some(Label::ServerIsBusy),
        Some(RegionReasonView::StaleCommand) => Some(Label::StaleCommand),
        Some(RegionReasonView::StoreNotMatch) => Some(Label::StoreNotMatch),
        None => None,
    }
}

/// The rendered text of an engine failure: a routing failure renders as
/// its message, a timeout or an unclassified failure as the text it
/// carries.
pub open spec fn engine_text(e: EngineErrorView) -> Seq<char> {
    match e {
        EngineErrorView::Request(r) => r.message,
        EngineErrorView::Timeout(detail) => detail,
        EngineErrorView::Other(detail) => detail,
    }
}

/// The rendered text of an MVCC failure. A lock conflict has no opaque
/// rendering of its own (it is always translated structurally, never
/// through the plain-message fallback), so it renders empty.
pub open spec fn mvcc_text(e: MvccErrorView) -> Seq<char> {
    match e {
        MvccErrorView::Engine(inner) => engine_text(inner),
        MvccErrorView::KeyIsLocked { .. } => Seq::empty(),
        MvccErrorView::Other(detail) => detail,
    }
}

/// The rendered text of a transactional failure.
pub open spec fn txn_text(e: TxnErrorView) -> Seq<char> {
    match e {
        TxnErrorView::Engine(inner) => engine_text(inner),
        TxnErrorView::Mvcc(inner) => mvcc_text(inner),
        TxnErrorView::Other(detail) => detail,
    }
}

/// The rendered text a failure carries into the plain-message fallback.
/// A cluster-id mismatch never reaches the fallback (it is translated
/// structurally by the first rule), so it renders empty.
pub open spec fn fallback_text(e: ErrorView) -> Seq<char> {
    match e {
        ErrorView::Other(detail) => detail,
        ErrorView::Rocks(detail) => detail,
        ErrorView::Io(detail) => detail,
        ErrorView::Engine(inner) => engine_text(inner),
        ErrorView::Txn(inner) => txn_text(inner),
        ErrorView::ClusterID { .. } => Seq::empty(),
    }
}

/// The wire shape a failure translates to, by the priority rules.
pub open spec fn wire_of(e: ErrorView) -> WireErrorView {
    match e {
        ErrorView::ClusterID { current, request } => WireErrorView::ClusterIdError {
            current,
            request,
        },
        ErrorView::Engine(EngineErrorView::Request(r)) => WireErrorView::RegionError(r),
        ErrorView::Txn(TxnErrorView::Engine(EngineErrorView::Request(r))) => WireErrorView::RegionError(
            r,
        ),
        ErrorView::Txn(
            TxnErrorView::Mvcc(MvccErrorView::Engine(EngineErrorView::Request(r))),
        ) => WireErrorView::RegionError(r),
        ErrorView::Txn(
            TxnErrorView::Mvcc(MvccErrorView::KeyIsLocked { primary, ts, key, ttl, txn_size }),
        ) => WireErrorView::KeyError {
            locked: LockInfoView {
                primary_lock: primary,
                lock_version: ts,
                key,
                lock_ttl: ttl,
                txn_size,
            },
        },
        ErrorView::Engine(EngineErrorView::Timeout(detail)) => WireErrorView::RegionError(
            RegionErrorView {
                message: detail,
                reason: Some(RegionReasonView::ServerIsBusy { reason: detail }),
            },
        ),
        _ => WireErrorView::PlainMessage { text: fallback_text(e) },
    }
}

/// The label counted for a failure, by the priority rules. `None` exactly
/// when a routing failure carries no recognized reason: the region-error
/// shape is still emitted, but no specific label is counted.
pub open spec fn label_of(e: ErrorView) -> Option<Label> {
    match e {
        ErrorView::ClusterID { .. } => Some(Label::ClusterMismatch),
        ErrorView::Engine(EngineErrorView::Request(r)) => reason_label(r.reason),
        ErrorView::Txn(TxnErrorView::Engine(EngineErrorView::Request(r))) => reason_label(r.reason),
        ErrorView::Txn(
            TxnErrorView::Mvcc(MvccErrorView::Engine(EngineErrorView::Request(r))),
        ) => reason_label(r.reason),
        ErrorView::Txn(TxnErrorView::Mvcc(MvccErrorView::KeyIsLocked { .. })) => Some(
            Label::KeyIsLocked,
        ),
        ErrorView::Engine(EngineErrorView::Timeout(_)) => Some(Label::Timeout),
        _ => Some(Label::Other),
    }
}

/// Law: translation is deterministic. Equal inputs yield the same wire
/// message and the same label; since [`translate`] returns exactly
/// [`wire_of`] and [`label_of`] of its input, two calls on equal values
/// return equal results.
pub proof fn lemma_translate_deterministic(a: ErrorView, b: ErrorView)
    requires
        a == b,
    ensures
        wire_of(a) == wire_of(b),
        label_of(a) == label_of(b),
{
}

/// Law: exactly one wire shape is populated per translation; the other
/// shapes are absent.
pub proof fn lemma_translate_exclusive(e: ErrorView)
    ensures
        crate::wire::populated_shapes(wire_of(e)) == 1,
{
}

/// Law: the label always matches the priority rule that fired.
///
/// A `cluster_mismatch` label is returned exactly for a cluster-id
/// mismatch, which translates to the cluster-id-error shape; a routing
/// failure at any wrapping depth is copied verbatim into the region-error
/// shape and labelled by its reason alone; `key_is_locked` is returned
/// exactly when the key-error shape is emitted; `timeout` exactly for a
/// raw engine timeout; `other` exactly when the plain-message fallback
/// fired; and no label at all exactly when a routing failure carries none
/// of the seven recognized reasons.
pub proof fn lemma_label_matches_rule(e: ErrorView)
    ensures
        (label_of(e) == Some(Label::ClusterMismatch)) <==> (e matches ErrorView::ClusterID { .. }),
        e matches ErrorView::ClusterID { current, request } ==> wire_of(e)
            == (WireErrorView::ClusterIdError { current, request }),
        routing_of(e) matches Some(r) ==> (wire_of(e) == WireErrorView::RegionError(r) && label_of(
            e,
        ) == reason_label(r.reason)),
        (label_of(e) == Some(Label::KeyIsLocked)) <==> (wire_of(e) matches WireErrorView::KeyError {
            ..
        }),
        (label_of(e) == Some(Label::Timeout)) <==> (e matches ErrorView::Engine(
            EngineErrorView::Timeout(_),
        )),
        (label_of(e) == Some(Label::Other)) <==> (wire_of(e) matches WireErrorView::PlainMessage {
            ..
        }),
        (label_of(e) is None) <==> (routing_of(e) matches Some(r) && r.reason is None),
{
}

/// Law: routing translation is independent of wrapping depth. The same
/// routing failure, surfaced directly from the engine, one level inside a
/// transaction error, or two levels inside a transaction error through the
/// MVCC layer, yields an identical wire shape — the failure copied
/// verbatim — and an identical label.
pub proof fn lemma_wrapping_depth_independent(r: RegionErrorView)
    ensures
        wire_of(ErrorView::Engine(EngineErrorView::Request(r))) == WireErrorView::RegionError(r),
        wire_of(ErrorView::Txn(TxnErrorView::Engine(EngineErrorView::Request(r))))
            == WireErrorView::RegionError(r),
        wire_of(ErrorView::Txn(TxnErrorView::Mvcc(MvccErrorView::Engine(EngineErrorView::Request(r)))))
            == WireErrorView::RegionError(r),
        label_of(ErrorView::Engine(EngineErrorView::Request(r))) == reason_label(r.reason),
        label_of(ErrorView::Txn(TxnErrorView::Engine(EngineErrorView::Request(r)))) == reason_label(
            r.reason,
        ),
        label_of(ErrorView::Txn(TxnErrorView::Mvcc(MvccErrorView::Engine(EngineErrorView::Request(r)))))
            == reason_label(r.reason),
{
}

/// Law: a routing failure with none of the seven recognized reasons still
/// yields the region-error shape, copied verbatim, but produces no label:
/// the client keeps routing semantics while no specific counter moves.
pub proof fn lemma_unrecognized_reason(e: ErrorView, r: RegionErrorView)
    requires
        routing_of(e) == Some(r),
        r.reason is None,
    ensures
        wire_of(e) == WireErrorView::RegionError(r),
        label_of(e) is None,
{
}

/// The label for a routing failure, from the recognized reason it carries,
/// if any.
fn reason_label_of(r: &RegionError) -> (l: Option<Label>)
    ensures
        l == reason_label(r@.reason),
{
    match &r.reason {
        Some(RegionReason::NotLeader) => Some(Label::NotLeader),
        Some(RegionReason::RegionNotFound) => Some(Label::RegionNotFound),
        Some(RegionReason::KeyNotInRegion) => Some(Label::KeyNotInRegion),
        Some(RegionReason::EpochNotMatch) => Some(Label::EpochNotMatch),
        Some(RegionReason::ServerIsBusy { .. }) => Some(Label::ServerIsBusy),
        Some(RegionReason::StaleCommand) => Some(Label::StaleCommand),
        Some(RegionReason::StoreNotMatch) => Some(Label::StoreNotMatch),
        None => None,
    }
}

/// The rendered text of an engine failure, for the plain-message fallback.
fn engine_message(e: EngineError) -> (t: String)
    ensures
        t@ == engine_text(e@),
{
    match e {
        EngineError::Request(r) => r.message,
        EngineError::Timeout(detail) => detail,
        EngineError::Other(detail) => detail,
    }
}

/// The rendered text of an MVCC failure, for the plain-message fallback.
fn mvcc_message(e: MvccError) -> (t: String)
    ensures
        t@ == mvcc_text(e@),
{
    match e {
        MvccError::Engine(inner) => engine_message(inner),
        MvccError::KeyIsLocked { .. } => String::new(),
        MvccError::Other(detail) => detail,
    }
}

/// The rendered text of a transactional failure, for the plain-message
/// fallback.
fn txn_message(e: TxnError) -> (t: String)
    ensures
        t@ == txn_text(e@),
{
    match e {
        TxnError::Engine(inner) => engine_message(inner),
        TxnError::Mvcc(inner) => mvcc_message(inner),
        TxnError::Other(detail) => detail,
    }
}

/// The rendered text a failure carries into the plain-message fallback.
fn fallback_message(e: Error) -> (t: String)
    ensures
        t@ == fallback_text(e@),
{
    match e {
        Error::Other(detail) => detail,
        Error::Rocks(detail) => detail,
        Error::Io(detail) => detail,
        Error::Engine(inner) => engine_message(inner),
        Error::Txn(inner) => txn_message(inner),
        Error::ClusterID { .. } => String::new(),
    }
}

/// Translates a classified failure into its wire message and its metrics
/// label. Total over the taxonomy and deterministic: the result is exactly
/// [`wire_of`] and [`label_of`] of the input. The label is `None` exactly
/// when a routing failure carries none of the seven recognized reasons;
/// the wire shape is emitted regardless.
pub fn translate(e: Error) -> (r: (WireError, Option<Label>))
    ensures
        r.0@ == wire_of(e@),
        r.1 == label_of(e@),
{
    match e {
        Error::ClusterID { current, request } => (
            WireError::ClusterIdError { current, request },
            Some(Label::ClusterMismatch),
        ),
        Error::Engine(EngineError::Request(r)) => {
            let label = reason_label_of(&r);
            (WireError::RegionError(r), label)
        },
        Error::Txn(TxnError::Engine(EngineError::Request(r))) => {
            let label = reason_label_of(&r);
            (WireError::RegionError(r), label)
        },
        Error::Txn(TxnError::Mvcc(MvccError::Engine(EngineError::Request(r)))) => {
            let label = reason_label_of(&r);
            (WireError::RegionError(r), label)
        },
        Error::Txn(TxnError::Mvcc(MvccError::KeyIsLocked { primary, ts, key, ttl, txn_size })) => (
            WireError::KeyError {
                locked: LockInfo {
                    primary_lock: primary,
                    lock_version: ts,
                    key,
                    lock_ttl: ttl,
                    txn_size,
                },
            },
            Some(Label::KeyIsLocked),
        ),
        Error::Engine(EngineError::Timeout(detail)) => {
            let message = detail.clone();
            (
                WireError::RegionError(
                    RegionError {
                        message,
                        reason: Some(RegionReason::ServerIsBusy { reason: detail }),
                    },
                ),
                Some(Label::Timeout),
            )
        },
        other => (WireError::PlainMessage { text: fallback_message(other) }, Some(Label::Other)),
    }
}

} // verus!
