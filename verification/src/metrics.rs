//! A per-label failure counter.
//!
//! The metrics sink is an injected collaborator: the caller owns a
//! [`LabelCounters`] value (or adapts one to an external counter vector)
//! and the translation layer's only operation on it is an increment by
//! label. Counters saturate at the largest representable count instead of
//! wrapping.

use vstd::prelude::*;

use crate::model::Error;
use crate::translate::label_of;
use crate::translate::translate;
use crate::translate::wire_of;
use crate::wire::Label;
use crate::wire::WireError;

verus! {

/// A count incremented by one, saturating at the largest count.
pub open spec fn bump(c: u64) -> u64 {
    if c == u64::MAX {
        c
    } else {
        (c + 1) as u64
    }
}

/// One failure counter per classification label.
#[derive(Clone, Copy, Debug, PartialEq, Eq, Structural)]
pub struct LabelCounters {
    pub cluster_mismatch: u64,
    pub not_leader: u64,
    pub region_not_found: u64,
    pub key_not_in_region: u64,
    pub epoch_not_match: u64,
    pub server_is_busy: u64,
    pub stale_command: u64,
    pub store_not_match: u64,
    pub key_is_locked: u64,
    pub timeout: u64,
    pub other: u64,
}

impl LabelCounters {
    /// The count recorded under a label.
    pub open spec fn count(self, label: Label) -> u64 {
        match label {
            Label::ClusterMismatch => self.cluster_mismatch,
            Label::NotLeader => self.not_leader,
            Label::RegionNotFound => self.region_not_found,
            Label::KeyNotInRegion => self.key_not_in_region,
            Label::EpochNotMatch => self.epoch_not_match,
            Label::ServerIsBusy => self.server_is_busy,
            Label::StaleCommand => self.stale_command,
            Label::StoreNotMatch => self.store_not_match,
            Label::KeyIsLocked => self.key_is_locked,
            Label::Timeout => self.timeout,
            Label::Other => self.other,
        }
    }

    /// A counter vector with every count at zero.
    pub fn new() -> (r: LabelCounters)
        ensures
            forall|label: Label| r.count(label) == 0,
    {
        LabelCounters {
            cluster_mismatch: 0,
            not_leader: 0,
            region_not_found: 0,
            key_not_in_region: 0,
            epoch_not_match: 0,
            server_is_busy: 0,
            stale_command: 0,
            store_not_match: 0,
            key_is_locked: 0,
            timeout: 0,
            other: 0,
        }
    }

    /// Increments the count under `label` by one (saturating); every other
    /// label's count is unchanged.
    pub fn inc(&mut self, label: Label)
        ensures
            final(self).count(label) == bump(old(self).count(label)),
            forall|l2: Label| l2 != label ==> final(self).count(l2) == old(self).count(l2),
    {
        match label {
            Label::ClusterMismatch => self.cluster_mismatch = bumped(self.cluster_mismatch),
            Label::NotLeader => self.not_leader = bumped(self.not_leader),
            Label::RegionNotFound => self.region_not_found = bumped(self.region_not_found),
            Label::KeyNotInRegion => self.key_not_in_region = bumped(self.key_not_in_region),
            Label::EpochNotMatch => self.epoch_not_match = bumped(self.epoch_not_match),
            Label::ServerIsBusy => self.server_is_busy = bumped(self.server_is_busy),
            Label::StaleCommand => self.stale_command = bumped(self.stale_command),
            Label::StoreNotMatch => self.store_not_match = bumped(self.store_not_match),
            Label::KeyIsLocked => self.key_is_locked = bumped(self.key_is_locked),
            Label::Timeout => self.timeout = bumped(self.timeout),
            Label::Other => self.other = bumped(self.other),
        }
    }

    /// Reads the count recorded under a label.
    pub fn get(&self, label: Label) -> (c: u64)
        ensures
            c == self.count(label),
    {
        match label {
            Label::ClusterMismatch => self.cluster_mismatch,
            Label::NotLeader => self.not_leader,
            Label::RegionNotFound => self.region_not_found,
            Label::KeyNotInRegion => self.key_not_in_region,
            Label::EpochNotMatch => self.epoch_not_match,
            Label::ServerIsBusy => self.server_is_busy,
            Label::StaleCommand => self.stale_command,
            Label::StoreNotMatch => self.store_not_match,
            Label::KeyIsLocked => self.key_is_locked,
            Label::Timeout => self.timeout,
            Label::Other => self.other,
        }
    }
}

/// A count incremented by one, saturating at the largest count.
fn bumped(c: u64) -> (r: u64)
    ensures
        r == bump(c),
{
    if c == u64::MAX {
        c
    } else {
        c + 1
    }
}

/// Translates a classified failure and counts it: the wire message is
/// returned, and the counter under the translation's label — when it
/// produces one — is incremented exactly once, every other counter left
/// unchanged. A routing failure with no recognized reason produces no
/// label, and no counter moves.
pub fn translate_and_count(e: Error, counters: &mut LabelCounters) -> (w: WireError)
    ensures
        w@ == wire_of(e@),
        match label_of(e@) {
            Some(label) => final(counters).count(label) == bump(old(counters).count(label))
                && (forall|l2: Label|
                l2 != label ==> final(counters).count(l2) == old(counters).count(l2)),
            None => *final(counters) == *old(counters),
        },
{
    let (w, label) = translate(e);
    match label {
        Some(label) => counters.inc(label),
        None => (),
    }
    w
}

} // verus!
