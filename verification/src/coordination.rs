//! Coordination of sync cycles and of transfer activities: sticky cycle
//! requests with completion results, and path leases that keep destructive
//! operations apart from running transfers.

use vstd::prelude::*;
use crate::error::AppError;
use crate::path_map::PathMap;
use crate::paths::overlap;
use crate::model::strs;

verus! {

/// Set of reasons for which a sync cycle is requested (a bit set).
#[derive(Debug, Clone, Copy, PartialEq, Eq, Structural, Default)]
pub struct CycleRequest(pub u32);

impl CycleRequest {
    /// Rescan the local tree.
    pub fn local_rescan() -> (r: CycleRequest)
        ensures
            r.0 == 1,
    {
        CycleRequest(1)
    }
    /// Apply incremental cloud changes.
    pub fn cloud_incremental() -> (r: CycleRequest)
        ensures
            r.0 == 2,
    {
        CycleRequest(2)
    }
    /// Rebuild the cloud tree completely.
    pub fn cloud_full() -> (r: CycleRequest)
        ensures
            r.0 == 4,
    {
        CycleRequest(4)
    }
    /// Recover after the network came back.
    pub fn online_recovery() -> (r: CycleRequest)
        ensures
            r.0 == 8,
    {
        CycleRequest(8)
    }
    /// Startup recovery.
    pub fn startup() -> (r: CycleRequest)
        ensures
            r.0 == 16,
    {
        CycleRequest(16)
    }
    /// Retry failed items.
    pub fn retry() -> (r: CycleRequest)
        ensures
            r.0 == 32,
    {
        CycleRequest(32)
    }
    /// Re-plan one task that needs a restart, without retrying every failure.
    pub fn replan() -> (r: CycleRequest)
        ensures
            r.0 == 64,
    {
        CycleRequest(64)
    }

    /// No reason is set.
    pub fn is_empty(self) -> (b: bool)
        ensures
            b == (self.0 == 0),
    {
        self.0 == 0
    }

    /// Every reason of `other` is set in `self`.
    pub fn contains(self, other: CycleRequest) -> (b: bool)
        ensures
            b == ((self.0 & other.0) == other.0),
    {
        self.0 & other.0 == other.0
    }

    /// The union of two requests.
    pub fn bitor(self, rhs: CycleRequest) -> (r: CycleRequest)
        ensures
            r.0 == (self.0 | rhs.0),
    {
        CycleRequest(self.0 | rhs.0)
    }
}

/// Requests are never lost: a union of requests contains each part, so work
/// that was requested or restored is in what the next owner takes.
pub proof fn lemma_union_contains(a: u32, b: u32)
    ensures
        ((a | b) & b) == b,
        ((a | b) & a) == a,
{
    assert(((a | b) & b) == b) by (bit_vector);
    assert(((a | b) & a) == a) by (bit_vector);
}

/// A failed cycle: the request sequences `start..=end` it completed, and the error.
#[derive(Debug)]
pub struct CycleFailure {
    pub start: u64,
    pub end: u64,
    pub message: String,
}

/// The most failures kept for result queries.
pub open spec fn failure_history_limit() -> nat {
    128
}

/// Bookkeeping of requested and completed sync cycles.
#[derive(Debug)]
pub struct CycleCoordinator {
    pending: u32,
    requested: u64,
    completed: u64,
    expired_result_through: u64,
    failures: Vec<CycleFailure>,
}

/// The sequence number after `r`, skipping 0 on wrap-around.
pub open spec fn next_sequence(r: u64) -> u64 {
    if r == u64::MAX { 1 } else { (r + 1) as u64 }
}

/// Index of the first failure whose range covers `sequence`, among the first `n`.
pub open spec fn first_cover(failures: Seq<CycleFailure>, sequence: u64, n: int) -> Option<int>
    decreases n,
{
    if n <= 0 {
        None
    } else {
        match first_cover(failures, sequence, n - 1) {
            Some(i) => Some(i),
            None => if failures[n - 1].start <= sequence && sequence <= failures[n - 1].end {
                Some(n - 1)
            } else {
                None
            },
        }
    }
}

/// What a result query reports, as a spec value.
pub enum CycleOutcome {
    /// The sequence is not completed yet.
    Pending,
    /// The sequence completed successfully.
    Succeeded,
    /// The sequence's result is no longer kept.
    Expired,
    /// The sequence completed with the failure at this history index.
    Failed(int),
}

impl CycleCoordinator {
    /// Reasons waiting for a cycle.
    pub closed spec fn pending_bits(self) -> u32 {
        self.pending
    }

    /// Last issued request sequence.
    pub closed spec fn requested_seq(self) -> u64 {
        self.requested
    }

    /// Highest completed request sequence.
    pub closed spec fn completed_seq(self) -> u64 {
        self.completed
    }

    /// Sequences up to this one have lost their result.
    pub closed spec fn expired_through(self) -> u64 {
        self.expired_result_through
    }

    /// Kept failures, oldest first.
    pub closed spec fn failure_log(self) -> Seq<CycleFailure> {
        self.failures@
    }

    /// Bounded history; every recorded failure lies at or below the completed
    /// sequence; the expired bound too.
    pub open spec fn wf(self) -> bool {
        &&& self.failure_log().len() <= failure_history_limit()
        &&& self.expired_through() <= self.completed_seq()
        &&& forall|i: int| 0 <= i < self.failure_log().len() ==> (#[trigger] self.failure_log()[i]).end <= self.completed_seq()
    }

    /// What a query for `sequence` reports.
    pub open spec fn outcome(self, sequence: u64) -> CycleOutcome {
        if self.completed_seq() < sequence {
            CycleOutcome::Pending
        } else if sequence <= self.expired_through() {
            CycleOutcome::Expired
        } else {
            match first_cover(self.failure_log(), sequence, self.failure_log().len() as int) {
                Some(i) => CycleOutcome::Failed(i),
                None => CycleOutcome::Succeeded,
            }
        }
    }

    /// A request whose result is known never becomes pending again, since
    /// completion only moves forward.
    pub proof fn known_results_stay_known(self, later: CycleCoordinator, sequence: u64)
        requires
            later.completed_seq() >= self.completed_seq(),
            !(self.outcome(sequence) is Pending),
        ensures
            !(later.outcome(sequence) is Pending),
    {
    }

    /// An idle coordinator.
    pub fn new() -> (c: CycleCoordinator)
        ensures
            c.wf(),
            c.pending_bits() == 0,
            c.requested_seq() == 0,
            c.completed_seq() == 0,
            c.expired_through() == 0,
            c.failure_log().len() == 0,
    {
        CycleCoordinator { pending: 0, requested: 0, completed: 0, expired_result_through: 0, failures: Vec::new() }
    }

    /// Record a request before waiting for ownership; returns its sequence.
    pub fn request(&mut self, request: CycleRequest) -> (sequence: u64)
        requires
            old(self).wf(),
        ensures
            final(self).wf(),
            sequence == next_sequence(old(self).requested_seq()),
            sequence >= 1,
            final(self).requested_seq() == sequence,
            final(self).pending_bits() == (old(self).pending_bits() | request.0),
            final(self).completed_seq() == old(self).completed_seq(),
            final(self).expired_through() == old(self).expired_through(),
            final(self).failure_log() == old(self).failure_log(),
    {
        self.requested = if self.requested == u64::MAX { 1 } else { self.requested + 1 };
        self.pending = self.pending | request.0;
        self.requested
    }

    /// Take the pending reasons, with the last issued sequence.
    pub fn take_pending_with_sequence(&mut self) -> (r: (CycleRequest, u64))
        requires
            old(self).wf(),
        ensures
            final(self).wf(),
            r.0.0 == old(self).pending_bits(),
            r.1 == old(self).requested_seq(),
            final(self).pending_bits() == 0,
            final(self).requested_seq() == old(self).requested_seq(),
            final(self).completed_seq() == old(self).completed_seq(),
            final(self).expired_through() == old(self).expired_through(),
            final(self).failure_log() == old(self).failure_log(),
    {
        let request = CycleRequest(self.pending);
        self.pending = 0;
        (request, self.requested)
    }

    /// Put back reasons that a cycle could not serve.
    pub fn restore(&mut self, request: CycleRequest)
        requires
            old(self).wf(),
        ensures
            final(self).wf(),
            final(self).pending_bits() == (old(self).pending_bits() | request.0),
            final(self).requested_seq() == old(self).requested_seq(),
            final(self).completed_seq() == old(self).completed_seq(),
            final(self).expired_through() == old(self).expired_through(),
            final(self).failure_log() == old(self).failure_log(),
    {
        self.pending = self.pending | request.0;
    }

    /// Mark the requests up to `through` as completed, with the error of the
    /// cycle if it failed. At most the newest failures are kept; the results
    /// of dropped ones expire.
    pub fn complete(&mut self, through: u64, error: Option<&AppError>)
        requires
            old(self).wf(),
        ensures
            final(self).wf(),
            final(self).completed_seq() == if through > old(self).completed_seq() { through } else { old(self).completed_seq() },
            final(self).pending_bits() == old(self).pending_bits(),
            final(self).requested_seq() == old(self).requested_seq(),
            error is None ==> final(self).failure_log() == old(self).failure_log()
                && final(self).expired_through() == old(self).expired_through(),
            error matches Some(e) ==> {
                let entry_start = if old(self).completed_seq() == u64::MAX { u64::MAX } else { (old(self).completed_seq() + 1) as u64 };
                let grown = old(self).failure_log().len() + 1 > failure_history_limit();
                let last = final(self).failure_log().last();
                &&& final(self).failure_log().len() > 0
                &&& last.start == entry_start
                &&& last.end == through
                &&& last.message@ == e.message_view()
                &&& !grown ==> final(self).failure_log() == old(self).failure_log().push(last)
                &&& !grown ==> final(self).expired_through() == old(self).expired_through()
                &&& grown ==> final(self).failure_log() == old(self).failure_log().push(last).subrange(1, old(self).failure_log().len() as int + 1)
                &&& grown ==> final(self).expired_through() == if old(self).failure_log()[0].end > old(self).expired_through() {
                        old(self).failure_log()[0].end } else { old(self).expired_through() }
            },
    {
        let previous = self.completed;
        if through > self.completed {
            self.completed = through;
        }
        if let Some(e) = error {
            let start = previous.saturating_add(1);
            self.failures.push(CycleFailure { start, end: through, message: e.message() });
            if self.failures.len() > 128 {
                let removed = self.failures.remove(0);
                if removed.end > self.expired_result_through {
                    self.expired_result_through = removed.end;
                }
            }
        }
    }

    /// The result of request `sequence`: `None` until it completed; an error
    /// when its result expired or a recorded failure covers it.
    pub fn result_if_completed(&self, sequence: u64) -> (r: Option<Result<(), AppError>>)
        requires
            self.wf(),
        ensures
            r is None <==> self.outcome(sequence) is Pending,
            self.outcome(sequence) is Succeeded ==> r == Some(Ok::<(), AppError>(())),
            self.outcome(sequence) is Expired ==> (r matches Some(Err(AppError::Generic { message }))
                && message@ == "同步周期结果历史已过期"@),
            self.outcome(sequence) matches CycleOutcome::Failed(i) ==> (r matches Some(Err(AppError::Generic { message }))
                && message@ == self.failure_log()[i].message@),
    {
        if self.completed < sequence {
            return None;
        }
        if sequence <= self.expired_result_through {
            return Some(Err(AppError::generic("同步周期结果历史已过期")));
        }
        let mut k: usize = 0;
        while k < self.failures.len()
            invariant
                k <= self.failures@.len(),
                self.completed_seq() >= sequence,
                sequence > self.expired_through(),
                first_cover(self.failures@, sequence, k as int) is None,
            decreases self.failures@.len() - k,
        {
            let f = &self.failures[k];
            if f.start <= sequence && sequence <= f.end {
                proof {
                    lemma_first_cover_extends(self.failures@, sequence, k as int, self.failures@.len() as int);
                }
                return Some(Err(AppError::generic(f.message.as_str())));
            }
            k = k + 1;
        }
        Some(Ok(()))
    }

    /// Some reasons wait for a cycle.
    pub fn has_pending(&self) -> (b: bool)
        ensures
            b == (self.pending_bits() != 0),
    {
        self.pending != 0
    }

    /// A request is issued but not completed yet.
    pub fn has_uncompleted_request(&self) -> (b: bool)
        ensures
            b == (self.requested_seq() > self.completed_seq()),
    {
        self.requested > self.completed
    }
}

/// The first cover found at position `k` stays the first cover of any longer prefix.
proof fn lemma_first_cover_extends(failures: Seq<CycleFailure>, sequence: u64, k: int, m: int)
    requires
        0 <= k < m <= failures.len(),
        first_cover(failures, sequence, k) is None,
        failures[k].start <= sequence && sequence <= failures[k].end,
    ensures
        first_cover(failures, sequence, m) == Some(k),
    decreases m,
{
    if m > k + 1 {
        lemma_first_cover_extends(failures, sequence, k, m - 1);
    }
}


/// A lease taken by an activity: a shared one, on a path or none, or an
/// exclusive one on a path.
#[derive(Debug)]
pub enum ActivityKind {
    Shared(Option<String>),
    Exclusive(String),
}

/// Admission of transfer activities and destructive path operations.
#[derive(Debug)]
pub struct ActivityTracker {
    accepting: bool,
    count: usize,
    active_paths: PathMap<usize>,
    exclusive_paths: Vec<String>,
}

impl ActivityTracker {
    /// New activities are admitted.
    pub closed spec fn is_accepting(self) -> bool {
        self.accepting
    }

    /// Number of leases held.
    pub closed spec fn lease_count(self) -> nat {
        self.count as nat
    }

    /// Shared leases per path.
    pub closed spec fn shared(self) -> Map<Seq<char>, usize> {
        self.active_paths.as_map()
    }

    /// Paths under an exclusive lease.
    pub closed spec fn exclusive(self) -> Seq<Seq<char>> {
        strs(self.exclusive_paths)
    }

    /// Leases are consistent: no exclusive path overlaps a shared path or
    /// another exclusive path, and every shared path holds a lease.
    pub open spec fn wf(self) -> bool {
        &&& self.index_wf()
        &&& forall|p: Seq<char>| #[trigger] self.shared().contains_key(p) ==> self.shared()[p] > 0
        &&& forall|i: int, p: Seq<char>| 0 <= i < self.exclusive().len() && #[trigger] self.shared().contains_key(p)
            ==> !overlap(#[trigger] self.exclusive()[i], p)
        &&& forall|i: int, j: int| 0 <= i < self.exclusive().len() && 0 <= j < self.exclusive().len() && i != j
            ==> !overlap(#[trigger] self.exclusive()[i], #[trigger] self.exclusive()[j])
    }

    /// The shared-path index holds each path once.
    pub closed spec fn index_wf(self) -> bool {
        self.active_paths.wf()
    }

    /// A tracker that admits activities and holds no lease.
    pub fn new() -> (t: ActivityTracker)
        ensures
            t.wf(),
            t.is_accepting(),
            t.lease_count() == 0,
            t.shared() == Map::<Seq<char>, usize>::empty(),
            t.exclusive() == Seq::<Seq<char>>::empty(),
    {
        let t = ActivityTracker {
            accepting: true,
            count: 0,
            active_paths: PathMap::new(),
            exclusive_paths: Vec::new(),
        };
        assert(strs(t.exclusive_paths) =~= Seq::<Seq<char>>::empty());
        t
    }

    /// Whether an exclusive lease overlaps `path`.
    fn exclusive_overlaps(&self, path: &str) -> (b: bool)
        ensures
            b == exists|i: int| 0 <= i < self.exclusive().len() && overlap(#[trigger] self.exclusive()[i], path@),
    {
        let mut i: usize = 0;
        while i < self.exclusive_paths.len()
            invariant
                i <= self.exclusive().len(),
                self.exclusive() == strs(self.exclusive_paths),
                forall|j: int| 0 <= j < i ==> !overlap(#[trigger] self.exclusive()[j], path@),
            decreases self.exclusive().len() - i,
        {
            if crate::paths::paths_overlap(self.exclusive_paths[i].as_str(), path) {
                assert(overlap(self.exclusive()[i as int], path@));
                return true;
            }
            i = i + 1;
        }
        false
    }

    /// Position of `path` among the exclusive leases.
    fn find_exclusive(&self, path: &str) -> (r: Option<usize>)
        ensures
            r matches Some(i) ==> i < self.exclusive().len() && self.exclusive()[i as int] == path@,
            r is None ==> !self.exclusive().contains(path@),
    {
        let mut i: usize = 0;
        while i < self.exclusive_paths.len()
            invariant
                i <= self.exclusive().len(),
                self.exclusive() == strs(self.exclusive_paths),
                forall|j: int| 0 <= j < i ==> self.exclusive()[j] != path@,
            decreases self.exclusive().len() - i,
        {
            if crate::paths::str_equal(self.exclusive_paths[i].as_str(), path) {
                return Some(i);
            }
            i = i + 1;
        }
        None
    }

    /// Whether a shared lease's path overlaps `path`.
    fn shared_overlaps(&self, path: &str) -> (b: bool)
        requires
            self.wf(),
        ensures
            b == exists|p: Seq<char>| #[trigger] self.shared().contains_key(p) && overlap(p, path@),
    {
        let n = self.active_paths.len();
        let mut i: usize = 0;
        while i < n
            invariant
                self.wf(),
                n == self.active_paths.size(),
                i <= n,
                forall|j: int| 0 <= j < i ==> !overlap(#[trigger] self.active_paths.key_at(j), path@),
            decreases n - i,
        {
            let key = self.active_paths.key(i);
            if crate::paths::paths_overlap(key.as_str(), path) {
                proof {
                    self.active_paths.lemma_lookup(i as int);
                    assert(self.shared().contains_key(self.active_paths.key_at(i as int)));
                    assert(overlap(self.active_paths.key_at(i as int), path@));
                }
                return true;
            }
            i = i + 1;
        }
        proof {
            assert forall|p: Seq<char>| #[trigger] self.shared().contains_key(p) implies !overlap(p, path@) by {
                let j = self.active_paths.index_of_key(p);
                assert(self.active_paths.keys()[j] == p);
            }
        }
        false
    }

    /// Admit a transfer activity, leasing `relative_path` shared. Refused after
    /// close, and while an exclusive lease overlaps the path.
    pub fn begin(&mut self, relative_path: Option<&str>) -> (r: Result<ActivityKind, AppError>)
        requires
            old(self).wf(),
            old(self).lease_count() < usize::MAX,
            relative_path matches Some(p) ==> (old(self).shared().contains_key(p@) ==> old(self).shared()[p@] < usize::MAX),
        ensures
            final(self).wf(),
            r is Ok <==> old(self).is_accepting() && (relative_path matches Some(p) ==>
                !exists|i: int| 0 <= i < old(self).exclusive().len() && overlap(#[trigger] old(self).exclusive()[i], p@)),
            !old(self).is_accepting() ==> (r matches Err(AppError::Generic { message })
                && message@ == "同步引擎已停止，拒绝新传输活动"@),
            r is Err ==> *final(self) == *old(self),
            r matches Ok(k) ==> {
                &&& final(self).is_accepting() == old(self).is_accepting()
                &&& final(self).lease_count() == old(self).lease_count() + 1
                &&& final(self).exclusive() == old(self).exclusive()
                &&& match relative_path {
                    Some(p) => k matches ActivityKind::Shared(Some(q)) && q@ == p@
                        && final(self).shared() == old(self).shared().insert(p@,
                            if old(self).shared().contains_key(p@) { (old(self).shared()[p@] + 1) as usize } else { 1 }),
                    None => k matches ActivityKind::Shared(None) && final(self).shared() == old(self).shared(),
                }
            },
    {
        if !self.accepting {
            return Err(AppError::generic("同步引擎已停止，拒绝新传输活动"));
        }
        let kind = match relative_path {
            Some(p) => {
                if self.exclusive_overlaps(p) {
                    return Err(AppError::generic("该路径正在执行破坏性操作，请稍后重试"));
                }
                let current: usize = match self.active_paths.get(p) {
                    Some(c) => *c,
                    None => 0,
                };
                let ghost before = *self;
                self.active_paths.insert(p.to_owned(), current + 1);
                proof {
                    assert(self.exclusive() == before.exclusive());
                    assert forall|i: int, q: Seq<char>| 0 <= i < self.exclusive().len()
                        && #[trigger] self.shared().contains_key(q) implies !overlap(#[trigger] self.exclusive()[i], q) by {
                        if q != p@ {
                            assert(before.shared().contains_key(q));
                        }
                    }
                    assert forall|q: Seq<char>| #[trigger] self.shared().contains_key(q) implies self.shared()[q] > 0 by {
                        if q != p@ {
                            assert(before.shared().contains_key(q));
                        }
                    }
                }
                ActivityKind::Shared(Some(p.to_owned()))
            },
            None => {
                assert(self.shared() == old(self).shared());
                ActivityKind::Shared(None)
            },
        };
        self.count = self.count + 1;
        assert(self.exclusive() == old(self).exclusive());
        assert(self.index_wf());
        Ok(kind)
    }

    /// Admit a destructive operation on `relative_path` with an exclusive
    /// lease. Refused after close, and while any lease overlaps the path.
    pub fn begin_exclusive(&mut self, relative_path: &str) -> (r: Result<ActivityKind, AppError>)
        requires
            old(self).wf(),
            old(self).lease_count() < usize::MAX,
        ensures
            final(self).wf(),
            r is Ok <==> old(self).is_accepting()
                && !(exists|p: Seq<char>| #[trigger] old(self).shared().contains_key(p) && overlap(p, relative_path@))
                && !(exists|i: int| 0 <= i < old(self).exclusive().len() && overlap(#[trigger] old(self).exclusive()[i], relative_path@)),
            !old(self).is_accepting() ==> (r matches Err(AppError::Generic { message })
                && message@ == "同步引擎已停止，拒绝破坏性操作"@),
            r is Err ==> *final(self) == *old(self),
            r matches Ok(k) ==> {
                &&& k matches ActivityKind::Exclusive(q) && q@ == relative_path@
                &&& final(self).is_accepting() == old(self).is_accepting()
                &&& final(self).lease_count() == old(self).lease_count() + 1
                &&& final(self).shared() == old(self).shared()
                &&& final(self).exclusive() == old(self).exclusive().push(relative_path@)
            },
    {
        if !self.accepting {
            return Err(AppError::generic("同步引擎已停止，拒绝破坏性操作"));
        }
        if self.shared_overlaps(relative_path) || self.exclusive_overlaps(relative_path) {
            return Err(AppError::generic("该路径或其子树存在活动任务，请稍后重试"));
        }
        let ghost before = self.exclusive();
        self.exclusive_paths.push(relative_path.to_owned());
        assert(self.exclusive() =~= before.push(relative_path@));
        proof {
            assert forall|i: int, j: int| 0 <= i < self.exclusive().len() && 0 <= j < self.exclusive().len() && i != j
                implies !overlap(#[trigger] self.exclusive()[i], #[trigger] self.exclusive()[j]) by {
                if i == before.len() as int {
                    assert(!overlap(before[j], relative_path@));
                } else if j == before.len() as int {
                    assert(!overlap(before[i], relative_path@));
                }
            }
        }
        self.count = self.count + 1;
        assert(self.shared() == old(self).shared());
        assert(self.index_wf());
        Ok(ActivityKind::Exclusive(relative_path.to_owned()))
    }

    /// Refuse new activities; leases already held stay until released.
    pub fn close(&mut self)
        requires
            old(self).wf(),
        ensures
            final(self).wf(),
            !final(self).is_accepting(),
            final(self).lease_count() == old(self).lease_count(),
            final(self).shared() == old(self).shared(),
            final(self).exclusive() == old(self).exclusive(),
    {
        self.accepting = false;
        assert(self.shared() == old(self).shared());
        assert(self.exclusive() == old(self).exclusive());
        assert(self.index_wf());
    }

    /// Release a lease; returns whether no lease is left.
    pub fn release(&mut self, kind: ActivityKind) -> (idle: bool)
        requires
            old(self).wf(),
        ensures
            final(self).wf(),
            final(self).is_accepting() == old(self).is_accepting(),
            final(self).lease_count() == if old(self).lease_count() == 0 { 0 } else { (old(self).lease_count() - 1) as nat },
            idle == (final(self).lease_count() == 0),
            match kind {
                ActivityKind::Shared(Some(p)) => final(self).exclusive() == old(self).exclusive()
                    && final(self).shared() == if !old(self).shared().contains_key(p@) {
                        old(self).shared()
                    } else if old(self).shared()[p@] <= 1 {
                        old(self).shared().remove(p@)
                    } else {
                        old(self).shared().insert(p@, (old(self).shared()[p@] - 1) as usize)
                    },
                ActivityKind::Shared(None) => final(self).exclusive() == old(self).exclusive()
                    && final(self).shared() == old(self).shared(),
                ActivityKind::Exclusive(p) => final(self).shared() == old(self).shared()
                    && !final(self).exclusive().contains(p@)
                    && forall|q: Seq<char>| q != p@ ==> (#[trigger] final(self).exclusive().contains(q)
                        <==> old(self).exclusive().contains(q)),
            },
    {
        match kind {
            ActivityKind::Shared(Some(path)) => {
                let ghost before = *self;
                let current = match self.active_paths.get(path.as_str()) {
                    Some(c) => Some(*c),
                    None => None,
                };
                match current {
                    Some(c) => {
                        if c <= 1 {
                            self.active_paths.remove(path.as_str());
                        } else {
                            self.active_paths.insert(path, c - 1);
                        }
                        proof {
                            assert(self.index_wf());
                            assert(self.exclusive() == before.exclusive());
                            assert forall|i: int, q: Seq<char>| 0 <= i < self.exclusive().len()
                                && #[trigger] self.shared().contains_key(q) implies !overlap(#[trigger] self.exclusive()[i], q) by {
                                assert(before.shared().contains_key(q));
                            }
                            assert forall|q: Seq<char>| #[trigger] self.shared().contains_key(q) implies self.shared()[q] > 0 by {
                                assert(before.shared().contains_key(q));
                            }
                        }
                    },
                    None => {
                        assert(self.shared() == old(self).shared());
                        assert(self.exclusive() == old(self).exclusive());
                    },
                }
            },
            ActivityKind::Shared(None) => {
                assert(self.shared() == old(self).shared());
                assert(self.exclusive() == old(self).exclusive());
            },
            ActivityKind::Exclusive(path) => {
                let ghost before = self.exclusive();
                assert(before == old(self).exclusive());
                assert(self.shared() == old(self).shared());
                if let Some(i) = self.find_exclusive(path.as_str()) {
                    self.exclusive_paths.remove(i);
                    proof {
                        assert(self.shared() == old(self).shared());
                        assert(self.exclusive() =~= before.remove(i as int));
                        assert(before[i as int] == path@);
                        assert forall|q: Seq<char>| q != path@ implies (#[trigger] self.exclusive().contains(q)
                            <==> before.contains(q)) by {
                            if before.contains(q) {
                                let j = choose|j: int| 0 <= j < before.len() && before[j] == q;
                                if j < i { assert(self.exclusive()[j] == q); } else { assert(j != i); assert(self.exclusive()[j - 1] == q); }
                            }
                            if self.exclusive().contains(q) {
                                let j = choose|j: int| 0 <= j < self.exclusive().len() && self.exclusive()[j] == q;
                                if j < i { assert(before[j] == q); } else { assert(before[j + 1] == q); }
                            }
                        }
                        assert(!self.exclusive().contains(path@)) by {
                            if self.exclusive().contains(path@) {
                                let j = choose|j: int| 0 <= j < self.exclusive().len() && self.exclusive()[j] == path@;
                                let j2 = if j < i { j } else { j + 1 };
                                assert(before[j2] == path@);
                                assert(overlap(before[j2], before[i as int]));
                            }
                        }
                        assert forall|a: int, b: int| 0 <= a < self.exclusive().len() && 0 <= b < self.exclusive().len() && a != b
                            implies !overlap(#[trigger] self.exclusive()[a], #[trigger] self.exclusive()[b]) by {
                            let a2 = if a < i { a } else { a + 1 };
                            let b2 = if b < i { b } else { b + 1 };
                            assert(!overlap(before[a2], before[b2]));
                        }
                        assert forall|a: int, q: Seq<char>| 0 <= a < self.exclusive().len()
                            && #[trigger] self.shared().contains_key(q) implies !overlap(#[trigger] self.exclusive()[a], q) by {
                            let a2 = if a < i { a } else { a + 1 };
                            assert(!overlap(before[a2], q));
                        }
                    }
                } else {
                    assert(self.exclusive() == old(self).exclusive());
                }
            },
        }
        assert(self.wf());
        let ghost mid = *self;
        self.count = self.count.saturating_sub(1);
        assert(self.index_wf());
        assert(self.shared() == mid.shared());
        assert(self.exclusive() == mid.exclusive());
        self.count == 0
    }

    /// Whether no lease is held.
    pub fn is_idle(&self) -> (b: bool)
        ensures
            b == (self.lease_count() == 0),
    {
        self.count == 0
    }
}

/// Whether two sync paths are equal or nested.
pub fn sync_paths_overlap(left: &str, right: &str) -> (r: bool)
    ensures
        r == overlap(left@, right@),
{
    crate::paths::paths_overlap(left, right)
}

} // verus!
