//! Reviewing failed baselines, and purging baselines that both sides lost.
//!
//! A failed baseline heals only when the local entry and the cloud file both
//! match it; the caller runs the guarded updates and reports how many rows
//! changed.

use vstd::prelude::*;
use crate::action_filters::{blocked_identity, is_blocked_path_identity};
use crate::model::{
    is_pending_file_id, pending_prefix, DriveFile, DriveFileView, LocalFileEntry, LocalFileEntryView, SyncItem, FAILED,
};
use crate::path_map::PathMap;
use crate::path_recovery::BlockedPathChange;
use crate::paths::{has_prefix, str_equal};

verus! {

/// What the review of one baseline found.
#[derive(Debug, Clone, Copy, PartialEq, Eq, Structural)]
pub enum FailedVerdict {
    /// Not failed, or held by an unsettled path change: not reviewed.
    NotReviewed,
    /// Neither side holds the path (left to the purge).
    BothAbsent,
    /// Only one side holds the path; `pending` when the id is a placeholder.
    MissingSide { pending: bool },
    /// The baseline still has a pending placeholder id.
    PendingId,
    /// The cloud file at the path has another id.
    IdMismatch,
    /// The local entry, the cloud file or the baseline disagree on being a folder.
    TypeConflict,
    /// A folder whose identity and type agree: restore it from both sides.
    HealFolder,
    /// A file whose baseline both sides still match: clear the failure.
    HealFile,
    /// The file changed since the baseline: leave the failure to the planner.
    BaselineChanged,
}

/// The review of a baseline against the local entry and cloud file at its
/// path.
pub open spec fn verdict_of(
    item: SyncItem,
    local: Option<LocalFileEntryView>,
    cloud: Option<DriveFileView>,
    blocked: Seq<BlockedPathChange>,
) -> FailedVerdict {
    let pending = has_prefix(item.file_id@, pending_prefix());
    if item.status != FAILED || blocked_identity(Some(item.local_path@), Some(item.file_id@), blocked) {
        FailedVerdict::NotReviewed
    } else {
        match (local, cloud) {
            (None, None) => FailedVerdict::BothAbsent,
            (Some(l), Some(c)) => if pending {
                FailedVerdict::PendingId
            } else if item.file_id@ != c.id {
                FailedVerdict::IdMismatch
            } else if l.is_folder != c.is_folder() {
                FailedVerdict::TypeConflict
            } else if l.is_folder {
                FailedVerdict::HealFolder
            } else if item.is_folder {
                FailedVerdict::TypeConflict
            } else if !l.is_placeholder && item.local_size == Some(l.size as i64)
                && item.local_mtime == Some(l.mtime) && item.size == c.size
                && item.cloud_edited_time is Some && item.cloud_edited_time == c.edited_time {
                FailedVerdict::HealFile
            } else {
                FailedVerdict::BaselineChanged
            },
            _ => FailedVerdict::MissingSide { pending },
        }
    }
}

/// Review a baseline against the local entry and cloud file at its path.
pub fn review_failed(
    item: &SyncItem,
    local: &PathMap<LocalFileEntry>,
    cloud: &PathMap<DriveFile>,
    blocked_changes: &Vec<BlockedPathChange>,
) -> (v: FailedVerdict)
    requires
        local.wf(),
        cloud.wf(),
    ensures
        v == verdict_of(*item, crate::planner::lookup(local.as_map(), item.local_path@),
            crate::planner::lookup(cloud.as_map(), item.local_path@), blocked_changes@),
{
    if item.status != FAILED
        || is_blocked_path_identity(Some(item.local_path.as_str()), Some(item.file_id.as_str()), blocked_changes) {
        return FailedVerdict::NotReviewed;
    }
    let pending = is_pending_file_id(item.file_id.as_str());
    match (local.get(item.local_path.as_str()), cloud.get(item.local_path.as_str())) {
        (None, None) => FailedVerdict::BothAbsent,
        (Some(l), Some(c)) => {
            if pending {
                FailedVerdict::PendingId
            } else if !str_equal(item.file_id.as_str(), c.id.as_str()) {
                FailedVerdict::IdMismatch
            } else if l.is_folder != c.is_folder() {
                FailedVerdict::TypeConflict
            } else if l.is_folder {
                FailedVerdict::HealFolder
            } else if item.is_folder {
                FailedVerdict::TypeConflict
            } else if !l.is_placeholder && item.local_size == Some(l.size as i64)
                && item.local_mtime == Some(l.mtime) && item.size == c.size
                && item.cloud_edited_time.is_some() && item.cloud_edited_time == c.edited_time {
                FailedVerdict::HealFile
            } else {
                FailedVerdict::BaselineChanged
            }
        },
        _ => FailedVerdict::MissingSide { pending },
    }
}

/// A baseline that the purge removes (unless a live transfer owns its path):
/// not held by an unsettled change, and absent from both sides.
pub open spec fn purgeable(
    item: SyncItem,
    local: Map<Seq<char>, LocalFileEntryView>,
    cloud: Map<Seq<char>, DriveFileView>,
    blocked: Seq<BlockedPathChange>,
) -> bool {
    !blocked_identity(Some(item.local_path@), Some(item.file_id@), blocked)
        && !local.contains_key(item.local_path@) && !cloud.contains_key(item.local_path@)
}

/// The indices of the baselines that the purge tries to remove, in order.
pub fn purge_candidates(
    items: &Vec<SyncItem>,
    local: &PathMap<LocalFileEntry>,
    cloud: &PathMap<DriveFile>,
    blocked_changes: &Vec<BlockedPathChange>,
) -> (r: Vec<usize>)
    requires
        local.wf(),
        cloud.wf(),
    ensures
        forall|k: int| 0 <= k < r@.len() ==> r@[k] < items@.len()
            && purgeable(items@[r@[k] as int], local.as_map(), cloud.as_map(), blocked_changes@),
        forall|k: int, l: int| 0 <= k < l < r@.len() ==> r@[k] < r@[l],
        forall|i: int| 0 <= i < items@.len()
            && purgeable(#[trigger] items@[i], local.as_map(), cloud.as_map(), blocked_changes@)
            ==> r@.contains(i as usize),
{
    let mut r: Vec<usize> = Vec::new();
    let mut i: usize = 0;
    while i < items.len()
        invariant
            local.wf(),
            cloud.wf(),
            i <= items@.len(),
            forall|k: int| 0 <= k < r@.len() ==> r@[k] < i
                && purgeable(items@[r@[k] as int], local.as_map(), cloud.as_map(), blocked_changes@),
            forall|k: int, l: int| 0 <= k < l < r@.len() ==> r@[k] < r@[l],
            forall|j: int| 0 <= j < i
                && purgeable(#[trigger] items@[j], local.as_map(), cloud.as_map(), blocked_changes@)
                ==> r@.contains(j as usize),
        decreases items@.len() - i,
    {
        let item = &items[i];
        if !is_blocked_path_identity(Some(item.local_path.as_str()), Some(item.file_id.as_str()), blocked_changes)
            && !local.contains_key(item.local_path.as_str()) && !cloud.contains_key(item.local_path.as_str()) {
            let ghost before = r@;
            r.push(i);
            proof {
                assert forall|j: int| 0 <= j < i + 1
                    && purgeable(#[trigger] items@[j], local.as_map(), cloud.as_map(), blocked_changes@)
                    implies r@.contains(j as usize) by {
                    if j == i {
                        assert(r@[before.len() as int] == i);
                    } else {
                        assert(before.contains(j as usize));
                        let w = choose|w: int| 0 <= w < before.len() && before[w] == j as usize;
                        assert(r@[w] == j as usize);
                    }
                }
            }
        }
        i = i + 1;
    }
    r
}

/// Counts of one review and purge.
#[derive(Debug, Clone, Copy)]
pub struct FailedRecordReconciliation {
    pub healed: usize,
    pub purged: usize,
    pub remaining_failed: usize,
    pub pending_id: usize,
    pub missing_side: usize,
    pub id_mismatch: usize,
    pub type_conflict: usize,
    pub baseline_changed: usize,
    pub transfer_blocked: usize,
    pub stale_transfer_blocked: usize,
}

impl FailedRecordReconciliation {
    /// All counts zero.
    pub fn new() -> (r: Self)
        ensures
            r.healed == 0 && r.purged == 0 && r.remaining_failed == 0 && r.pending_id == 0
                && r.missing_side == 0 && r.id_mismatch == 0 && r.type_conflict == 0
                && r.baseline_changed == 0 && r.transfer_blocked == 0 && r.stale_transfer_blocked == 0,
    {
        FailedRecordReconciliation {
            healed: 0,
            purged: 0,
            remaining_failed: 0,
            pending_id: 0,
            missing_side: 0,
            id_mismatch: 0,
            type_conflict: 0,
            baseline_changed: 0,
            transfer_blocked: 0,
            stale_transfer_blocked: 0,
        }
    }

    /// Count a review; `updated` is the number of rows a heal changed (zero
    /// when a live transfer held the path).
    pub fn count_review(&mut self, verdict: FailedVerdict, updated: usize)
        requires
            old(self).healed + updated <= usize::MAX,
            old(self).pending_id < usize::MAX,
            old(self).missing_side < usize::MAX,
            old(self).id_mismatch < usize::MAX,
            old(self).type_conflict < usize::MAX,
            old(self).baseline_changed < usize::MAX,
            old(self).transfer_blocked < usize::MAX,
        ensures
            final(self).purged == old(self).purged,
            final(self).remaining_failed == old(self).remaining_failed,
            final(self).stale_transfer_blocked == old(self).stale_transfer_blocked,
            final(self).missing_side == old(self).missing_side + if verdict is MissingSide { 1int } else { 0 },
            final(self).pending_id == old(self).pending_id
                + if verdict == FailedVerdict::PendingId || verdict == (FailedVerdict::MissingSide { pending: true }) { 1int } else { 0 },
            final(self).id_mismatch == old(self).id_mismatch + if verdict == FailedVerdict::IdMismatch { 1int } else { 0 },
            final(self).type_conflict == old(self).type_conflict + if verdict == FailedVerdict::TypeConflict { 1int } else { 0 },
            final(self).baseline_changed == old(self).baseline_changed
                + if verdict == FailedVerdict::BaselineChanged { 1int } else { 0 },
            final(self).healed == old(self).healed
                + if verdict == FailedVerdict::HealFolder || verdict == FailedVerdict::HealFile { updated as int } else { 0 },
            final(self).transfer_blocked == old(self).transfer_blocked
                + if (verdict == FailedVerdict::HealFolder || verdict == FailedVerdict::HealFile) && updated == 0 { 1int } else { 0 },
    {
        match verdict {
            FailedVerdict::MissingSide { pending } => {
                self.missing_side = self.missing_side + 1;
                if pending {
                    self.pending_id = self.pending_id + 1;
                }
            },
            FailedVerdict::PendingId => {
                self.pending_id = self.pending_id + 1;
            },
            FailedVerdict::IdMismatch => {
                self.id_mismatch = self.id_mismatch + 1;
            },
            FailedVerdict::TypeConflict => {
                self.type_conflict = self.type_conflict + 1;
            },
            FailedVerdict::BaselineChanged => {
                self.baseline_changed = self.baseline_changed + 1;
            },
            FailedVerdict::HealFolder | FailedVerdict::HealFile => {
                self.healed = self.healed + updated;
                if updated == 0 {
                    self.transfer_blocked = self.transfer_blocked + 1;
                }
            },
            FailedVerdict::NotReviewed | FailedVerdict::BothAbsent => {},
        }
    }

    /// Count a purge attempt; `deleted` is the number of rows removed (zero
    /// when a live transfer held the path).
    pub fn count_purge(&mut self, deleted: usize)
        requires
            old(self).purged + deleted <= usize::MAX,
            old(self).transfer_blocked < usize::MAX,
            old(self).stale_transfer_blocked < usize::MAX,
        ensures
            final(self).purged == old(self).purged + deleted,
            final(self).transfer_blocked == old(self).transfer_blocked + if deleted == 0 { 1int } else { 0 },
            final(self).stale_transfer_blocked == old(self).stale_transfer_blocked + if deleted == 0 { 1int } else { 0 },
            final(self).healed == old(self).healed,
            final(self).remaining_failed == old(self).remaining_failed,
            final(self).pending_id == old(self).pending_id,
            final(self).missing_side == old(self).missing_side,
            final(self).id_mismatch == old(self).id_mismatch,
            final(self).type_conflict == old(self).type_conflict,
            final(self).baseline_changed == old(self).baseline_changed,
    {
        self.purged = self.purged + deleted;
        if deleted == 0 {
            self.transfer_blocked = self.transfer_blocked + 1;
            self.stale_transfer_blocked = self.stale_transfer_blocked + 1;
        }
    }
}

impl Default for FailedRecordReconciliation {
    /// All counts zero.
    fn default() -> (r: Self)
        ensures
            r.healed == 0 && r.purged == 0 && r.remaining_failed == 0 && r.pending_id == 0
                && r.missing_side == 0 && r.id_mismatch == 0 && r.type_conflict == 0
                && r.baseline_changed == 0 && r.transfer_blocked == 0 && r.stale_transfer_blocked == 0,
    {
        FailedRecordReconciliation::new()
    }
}

} // verus!
