//! The poller engine: one poll cycle after another, deciding what to do next
//! from what the previous step reported. The caller performs each action
//! (network, database, sleeping) and feeds its outcome back.

use vstd::prelude::*;

verus! {

/// What a poller stores: normalized events (which are then expired and
/// counted into the stats) or mesh nodes (which are not).
#[derive(Debug, Clone, Copy, PartialEq, Eq, Structural)]
pub enum FeedKind {
    Events,
    MeshNodes,
}

/// Where a poller is in its cycle: each phase waits for one outcome.
#[derive(Debug, Clone, Copy, PartialEq, Eq, Structural)]
pub enum CyclePhase {
    /// Waiting for the feed to be fetched.
    Fetching,
    /// Waiting for the record at this index to be stored.
    Storing(usize),
    /// Waiting for records missing from the feed to be deactivated.
    Expiring,
    /// Waiting for the stats snapshot to be refreshed.
    RefreshingStats,
    /// Waiting for a successful poll to be recorded in the feed status.
    RecordingSuccess,
    /// Waiting for a failed poll to be recorded in the feed status.
    RecordingFailure,
    /// Waiting out the poll interval.
    Sleeping,
}

/// What the caller reports after performing the pending action.
#[derive(Debug, Clone, Copy, PartialEq, Eq, Structural)]
pub enum CycleEvent {
    /// The feed was fetched and parsed into this many records.
    Fetched(usize),
    /// The feed could not be fetched or parsed.
    FetchFailed,
    /// Storing a record succeeded; `new_row` tells whether it was a new row.
    Stored { new_row: bool },
    /// Storing a record failed (the cycle goes on).
    StoreFailed,
    /// A step without an outcome of its own (expiring, refreshing, recording,
    /// sleeping) is done, whether or not it succeeded.
    Done,
}

/// What the caller should do next.
#[derive(Debug, Clone, Copy, PartialEq, Eq, Structural)]
pub enum CycleAction {
    /// Fetch the feed.
    Fetch,
    /// Store the record at this index of the fetched batch.
    Store(usize),
    /// Deactivate this source's events that are not in the fetched batch.
    Expire,
    /// Refresh the stats snapshot.
    RefreshStats,
    /// Record a successful poll: `fetched` records, `stored` of them counted.
    RecordSuccess { fetched: usize, stored: usize },
    /// Record a failed poll.
    RecordFailure,
    /// Sleep for this many seconds.
    Sleep(u64),
}

/// The state of one poller.
#[derive(Debug, Clone, Copy, PartialEq, Eq, Structural)]
pub struct PollCycle {
    pub kind: FeedKind,
    pub interval_secs: u64,
    pub phase: CyclePhase,
    /// Records in the current batch.
    pub fetched: usize,
    /// Records of the current batch counted as stored so far.
    pub stored: usize,
}

/// Whether a successful store counts toward the stored total: for events only
/// new rows count, for mesh nodes every success does.
pub open spec fn counts_as_stored(kind: FeedKind, new_row: bool) -> bool {
    match kind {
        FeedKind::Events => new_row,
        FeedKind::MeshNodes => true,
    }
}

impl PollCycle {
    /// The counters are consistent with the phase.
    pub open spec fn well_formed(self) -> bool {
        &&& self.stored <= self.fetched
        &&& self.phase matches CyclePhase::Storing(i) ==> i < self.fetched && self.stored <= i
        &&& self.kind == FeedKind::MeshNodes ==> !(self.phase is Expiring)
            && !(self.phase is RefreshingStats)
    }

    /// The action that the current phase waits on.
    pub open spec fn pending(self) -> CycleAction {
        match self.phase {
            CyclePhase::Fetching => CycleAction::Fetch,
            CyclePhase::Storing(i) => CycleAction::Store(i),
            CyclePhase::Expiring => CycleAction::Expire,
            CyclePhase::RefreshingStats => CycleAction::RefreshStats,
            CyclePhase::RecordingSuccess => CycleAction::RecordSuccess {
                fetched: self.fetched,
                stored: self.stored,
            },
            CyclePhase::RecordingFailure => CycleAction::RecordFailure,
            CyclePhase::Sleeping => CycleAction::Sleep(self.interval_secs),
        }
    }

    /// The state after the batch has been stored: expiring for events,
    /// recording success for mesh nodes.
    pub open spec fn after_storing(self) -> PollCycle {
        match self.kind {
            FeedKind::Events => PollCycle { phase: CyclePhase::Expiring, ..self },
            FeedKind::MeshNodes => PollCycle { phase: CyclePhase::RecordingSuccess, ..self },
        }
    }

    /// The next state for a reported outcome. An outcome that the phase does not
    /// wait for leaves the state unchanged.
    pub open spec fn next_state(self, e: CycleEvent) -> PollCycle {
        match (self.phase, e) {
            (CyclePhase::Fetching, CycleEvent::Fetched(n)) => {
                let s = PollCycle { fetched: n, stored: 0, ..self };
                if n > 0 {
                    PollCycle { phase: CyclePhase::Storing(0), ..s }
                } else {
                    s.after_storing()
                }
            },
            (CyclePhase::Fetching, CycleEvent::FetchFailed) => PollCycle {
                phase: CyclePhase::RecordingFailure,
                ..self
            },
            (CyclePhase::Storing(i), CycleEvent::Stored { new_row }) => {
                let s = PollCycle {
                    stored: if counts_as_stored(self.kind, new_row) {
                        (self.stored + 1) as usize
                    } else {
                        self.stored
                    },
                    ..self
                };
                if i + 1 < self.fetched {
                    PollCycle { phase: CyclePhase::Storing((i + 1) as usize), ..s }
                } else {
                    s.after_storing()
                }
            },
            (CyclePhase::Storing(i), CycleEvent::StoreFailed) => {
                if i + 1 < self.fetched {
                    PollCycle { phase: CyclePhase::Storing((i + 1) as usize), ..self }
                } else {
                    self.after_storing()
                }
            },
            (CyclePhase::Expiring, CycleEvent::Done) => PollCycle {
                phase: CyclePhase::RefreshingStats,
                ..self
            },
            (CyclePhase::RefreshingStats, CycleEvent::Done) => PollCycle {
                phase: CyclePhase::RecordingSuccess,
                ..self
            },
            (CyclePhase::RecordingSuccess, CycleEvent::Done) => PollCycle {
                phase: CyclePhase::Sleeping,
                ..self
            },
            (CyclePhase::RecordingFailure, CycleEvent::Done) => PollCycle {
                phase: CyclePhase::Sleeping,
                ..self
            },
            (CyclePhase::Sleeping, CycleEvent::Done) => PollCycle {
                phase: CyclePhase::Fetching,
                ..self
            },
            _ => self,
        }
    }

    /// This state with another phase.
    pub open spec fn with_phase(self, phase: CyclePhase) -> PollCycle {
        PollCycle { phase: phase, ..self }
    }

    /// This state with other batch counters.
    pub open spec fn with_counts(self, fetched: usize, stored: usize) -> PollCycle {
        PollCycle { fetched: fetched, stored: stored, ..self }
    }

    /// The success record for the current batch.
    pub open spec fn success_record(self) -> CycleAction {
        CycleAction::RecordSuccess { fetched: self.fetched, stored: self.stored }
    }

    /// A new poller, about to fetch.
    pub fn new(kind: FeedKind, interval_secs: u64) -> (r: PollCycle)
        ensures
            r.kind == kind,
            r.interval_secs == interval_secs,
            r.phase == CyclePhase::Fetching,
            r.fetched == 0,
            r.stored == 0,
            r.well_formed(),
            r.pending() == CycleAction::Fetch,
    {
        PollCycle { kind, interval_secs, phase: CyclePhase::Fetching, fetched: 0, stored: 0 }
    }

    /// Whether the counters are consistent with the phase.
    pub fn is_well_formed(&self) -> (r: bool)
        ensures
            r == self.well_formed(),
    {
        let storing_ok = match self.phase {
            CyclePhase::Storing(i) => i < self.fetched && self.stored <= i,
            _ => true,
        };
        let kind_ok = match self.kind {
            FeedKind::MeshNodes => match self.phase {
                CyclePhase::Expiring | CyclePhase::RefreshingStats => false,
                _ => true,
            },
            FeedKind::Events => true,
        };
        self.stored <= self.fetched && storing_ok && kind_ok
    }

    /// The action that the current phase waits on.
    pub fn pending_action(&self) -> (r: CycleAction)
        ensures
            r == self.pending(),
    {
        match self.phase {
            CyclePhase::Fetching => CycleAction::Fetch,
            CyclePhase::Storing(i) => CycleAction::Store(i),
            CyclePhase::Expiring => CycleAction::Expire,
            CyclePhase::RefreshingStats => CycleAction::RefreshStats,
            CyclePhase::RecordingSuccess => CycleAction::RecordSuccess {
                fetched: self.fetched,
                stored: self.stored,
            },
            CyclePhase::RecordingFailure => CycleAction::RecordFailure,
            CyclePhase::Sleeping => CycleAction::Sleep(self.interval_secs),
        }
    }

    fn finish_storing(self) -> (r: PollCycle)
        ensures
            r == self.after_storing(),
    {
        match self.kind {
            FeedKind::Events => PollCycle { phase: CyclePhase::Expiring, ..self },
            FeedKind::MeshNodes => PollCycle { phase: CyclePhase::RecordingSuccess, ..self },
        }
    }

    /// Takes the outcome of the pending action and moves to the next phase,
    /// returning the action to perform next.
    pub fn advance(&mut self, e: CycleEvent) -> (r: CycleAction)
        requires
            old(self).well_formed(),
        ensures
            *final(self) == old(self).next_state(e),
            final(self).well_formed(),
            r == final(self).pending(),
    {
        let next = match (self.phase, e) {
            (CyclePhase::Fetching, CycleEvent::Fetched(n)) => {
                let s = PollCycle { fetched: n, stored: 0, ..*self };
                if n > 0 {
                    PollCycle { phase: CyclePhase::Storing(0), ..s }
                } else {
                    s.finish_storing()
                }
            },
            (CyclePhase::Fetching, CycleEvent::FetchFailed) => PollCycle {
                phase: CyclePhase::RecordingFailure,
                ..*self
            },
            (CyclePhase::Storing(i), CycleEvent::Stored { new_row }) => {
                let counted = match self.kind {
                    FeedKind::Events => new_row,
                    FeedKind::MeshNodes => true,
                };
                let s = PollCycle {
                    stored: if counted {
                        self.stored + 1
                    } else {
                        self.stored
                    },
                    ..*self
                };
                if i + 1 < self.fetched {
                    PollCycle { phase: CyclePhase::Storing(i + 1), ..s }
                } else {
                    s.finish_storing()
                }
            },
            (CyclePhase::Storing(i), CycleEvent::StoreFailed) => {
                if i + 1 < self.fetched {
                    PollCycle { phase: CyclePhase::Storing(i + 1), ..*self }
                } else {
                    self.finish_storing()
                }
            },
            (CyclePhase::Expiring, CycleEvent::Done) => PollCycle {
                phase: CyclePhase::RefreshingStats,
                ..*self
            },
            (CyclePhase::RefreshingStats, CycleEvent::Done) => PollCycle {
                phase: CyclePhase::RecordingSuccess,
                ..*self
            },
            (CyclePhase::RecordingSuccess, CycleEvent::Done) => PollCycle {
                phase: CyclePhase::Sleeping,
                ..*self
            },
            (CyclePhase::RecordingFailure, CycleEvent::Done) => PollCycle {
                phase: CyclePhase::Sleeping,
                ..*self
            },
            (CyclePhase::Sleeping, CycleEvent::Done) => PollCycle {
                phase: CyclePhase::Fetching,
                ..*self
            },
            _ => *self,
        };
        *self = next;
        self.pending_action()
    }
}


/// The state reached from `s` by reporting the outcomes `events` in order.
pub open spec fn run(s: PollCycle, events: Seq<CycleEvent>) -> PollCycle
    decreases events.len(),
{
    if events.len() == 0 {
        s
    } else {
        run(s, events.drop_last()).next_state(events.last())
    }
}

/// An outcome of storing one record.
pub open spec fn is_store_outcome(e: CycleEvent) -> bool {
    e is Stored || e is StoreFailed
}

/// How many of the store outcomes count toward the stored total.
pub open spec fn counted_stores(kind: FeedKind, outcomes: Seq<CycleEvent>) -> nat
    decreases outcomes.len(),
{
    if outcomes.len() == 0 {
        0
    } else {
        counted_stores(kind, outcomes.drop_last()) + match outcomes.last() {
            CycleEvent::Stored { new_row } => if counts_as_stored(kind, new_row) {
                1nat
            } else {
                0nat
            },
            _ => 0nat,
        }
    }
}

/// Every step keeps the counters consistent with the phase.
pub proof fn lemma_next_state_well_formed(s: PollCycle, e: CycleEvent)
    requires
        s.well_formed(),
    ensures
        s.next_state(e).well_formed(),
{
}

/// Any sequence of steps keeps the counters consistent with the phase.
pub proof fn lemma_run_well_formed(s: PollCycle, events: Seq<CycleEvent>)
    requires
        s.well_formed(),
    ensures
        run(s, events).well_formed(),
    decreases events.len(),
{
    if events.len() > 0 {
        lemma_run_well_formed(s, events.drop_last());
        lemma_next_state_well_formed(run(s, events.drop_last()), events.last());
    }
}

proof fn lemma_storing_prefix(s: PollCycle, n: usize, outcomes: Seq<CycleEvent>, k: int)
    requires
        s.phase == CyclePhase::Fetching,
        n > 0,
        outcomes.len() == n,
        forall|i: int| 0 <= i < outcomes.len() ==> is_store_outcome(#[trigger] outcomes[i]),
        0 <= k <= n,
    ensures
        k < n ==> run(s.next_state(CycleEvent::Fetched(n)), outcomes.take(k)) == s.with_counts(
            n,
            counted_stores(s.kind, outcomes.take(k)) as usize,
        ).with_phase(CyclePhase::Storing(k as usize)),
        k == n ==> run(s.next_state(CycleEvent::Fetched(n)), outcomes.take(k)) == s.with_counts(
            n,
            counted_stores(s.kind, outcomes) as usize,
        ).after_storing(),
        counted_stores(s.kind, outcomes.take(k)) <= k,
    decreases k,
{
    let t = s.next_state(CycleEvent::Fetched(n));
    if k == 0 {
        assert(outcomes.take(0) =~= Seq::<CycleEvent>::empty());
    } else {
        lemma_storing_prefix(s, n, outcomes, k - 1);
        assert(outcomes.take(k).drop_last() =~= outcomes.take(k - 1));
        assert(outcomes.take(k).last() == outcomes[k - 1]);
        assert(is_store_outcome(outcomes[k - 1]));
        if k == n {
            assert(outcomes.take(k) =~= outcomes);
        }
    }
}

/// The storing stage of a cycle: after the feed yields `n > 0` records and
/// each store reports an outcome, the poller has asked to store records
/// `0, 1, .., n-1` in that order, and then moves on (events: to expiring; mesh
/// nodes: to recording success) with `n` fetched and the counted stores
/// as its total.
pub proof fn lemma_stores_every_record_in_order(
    s: PollCycle,
    n: usize,
    outcomes: Seq<CycleEvent>,
)
    requires
        s.phase == CyclePhase::Fetching,
        n > 0,
        outcomes.len() == n,
        forall|i: int| 0 <= i < outcomes.len() ==> is_store_outcome(#[trigger] outcomes[i]),
    ensures
        s.next_state(CycleEvent::Fetched(n)).pending() == CycleAction::Store(0),
        forall|k: int|
            0 <= k < n ==> #[trigger] run(
                s.next_state(CycleEvent::Fetched(n)),
                outcomes.take(k),
            ).pending() == CycleAction::Store(k as usize),
        run(s.next_state(CycleEvent::Fetched(n)), outcomes) == s.with_counts(
            n,
            counted_stores(s.kind, outcomes) as usize,
        ).after_storing(),
        counted_stores(s.kind, outcomes) <= n,
        run(s.next_state(CycleEvent::Fetched(n)), outcomes).phase == if s.kind
            == FeedKind::Events {
            CyclePhase::Expiring
        } else {
            CyclePhase::RecordingSuccess
        },
{
    assert forall|k: int| 0 <= k < n implies #[trigger] run(
        s.next_state(CycleEvent::Fetched(n)),
        outcomes.take(k),
    ).pending() == CycleAction::Store(k as usize) by {
        lemma_storing_prefix(s, n, outcomes, k);
    }
    lemma_storing_prefix(s, n, outcomes, n as int);
    assert(outcomes.take(n as int) =~= outcomes);
}

/// The end of a successful events cycle: once the batch is stored, the poller
/// expires events missing from the feed, refreshes the stats, records the
/// success with its counts, sleeps for its interval, and fetches again.
pub proof fn lemma_events_cycle_finishes(s: PollCycle)
    requires
        s.kind == FeedKind::Events,
        s.phase == CyclePhase::Expiring,
    ensures
        s.pending() == CycleAction::Expire,
        s.next_state(CycleEvent::Done).pending() == CycleAction::RefreshStats,
        s.next_state(CycleEvent::Done).next_state(CycleEvent::Done).pending()
            == s.success_record(),
        s.next_state(CycleEvent::Done).next_state(CycleEvent::Done).next_state(
            CycleEvent::Done,
        ).pending() == CycleAction::Sleep(s.interval_secs),
        s.next_state(CycleEvent::Done).next_state(CycleEvent::Done).next_state(
            CycleEvent::Done,
        ).next_state(CycleEvent::Done) == s.with_phase(CyclePhase::Fetching),
{
}

/// The end of a successful mesh cycle: once the batch is stored, the poller
/// records the success with its counts (no expiring, no stats), sleeps, and
/// fetches again.
pub proof fn lemma_mesh_cycle_finishes(s: PollCycle)
    requires
        s.kind == FeedKind::MeshNodes,
        s.phase == CyclePhase::RecordingSuccess,
    ensures
        s.pending() == s.success_record(),
        s.next_state(CycleEvent::Done).pending() == CycleAction::Sleep(s.interval_secs),
        s.next_state(CycleEvent::Done).next_state(CycleEvent::Done) == s.with_phase(
            CyclePhase::Fetching,
        ),
{
}

/// A failed fetch stores nothing and expires nothing: the poller records the
/// failure, sleeps for its interval, and fetches again.
pub proof fn lemma_failed_fetch(s: PollCycle)
    requires
        s.phase == CyclePhase::Fetching,
    ensures
        s.next_state(CycleEvent::FetchFailed).pending() == CycleAction::RecordFailure,
        s.next_state(CycleEvent::FetchFailed).next_state(CycleEvent::Done).pending()
            == CycleAction::Sleep(s.interval_secs),
        s.next_state(CycleEvent::FetchFailed).next_state(CycleEvent::Done).next_state(
            CycleEvent::Done,
        ).phase == CyclePhase::Fetching,
{
}

/// An empty feed stores nothing but still goes on to expiring (events), so
/// every active event of the source is deactivated, or to recording success.
pub proof fn lemma_empty_feed(s: PollCycle)
    requires
        s.phase == CyclePhase::Fetching,
    ensures
        s.next_state(CycleEvent::Fetched(0)) == s.with_counts(0, 0).after_storing(),
        s.next_state(CycleEvent::Fetched(0)).phase == if s.kind == FeedKind::Events {
            CyclePhase::Expiring
        } else {
            CyclePhase::RecordingSuccess
        },
        s.next_state(CycleEvent::Fetched(0)).fetched == 0,
        s.next_state(CycleEvent::Fetched(0)).stored == 0,
{
}

/// How one store outcome is counted: for events only a store that inserted a
/// new row counts, for mesh nodes every successful store counts, and a failed
/// store never counts; either way the poller moves on to the next record, or
/// past the batch after the last one.
pub proof fn lemma_store_counting(s: PollCycle, i: usize, new_row: bool)
    requires
        s.well_formed(),
        s.phase == CyclePhase::Storing(i),
    ensures
        s.next_state(CycleEvent::Stored { new_row }).stored == if s.kind == FeedKind::Events
            && !new_row {
            s.stored as int
        } else {
            s.stored + 1
        },
        s.next_state(CycleEvent::StoreFailed).stored == s.stored,
        s.next_state(CycleEvent::Stored { new_row }).fetched == s.fetched,
        s.next_state(CycleEvent::StoreFailed).fetched == s.fetched,
        i + 1 < s.fetched ==> s.next_state(CycleEvent::Stored { new_row }).phase
            == CyclePhase::Storing((i + 1) as usize) && s.next_state(CycleEvent::StoreFailed).phase
            == CyclePhase::Storing((i + 1) as usize),
        i + 1 == s.fetched ==> !(s.next_state(CycleEvent::Stored { new_row }).phase is Storing)
            && !(s.next_state(CycleEvent::StoreFailed).phase is Storing),
{
}

/// A recorded success never counts more stored records than were fetched.
pub proof fn lemma_success_counts_bounded(s: PollCycle, events: Seq<CycleEvent>)
    requires
        s.well_formed(),
    ensures
        run(s, events).pending() matches CycleAction::RecordSuccess { fetched, stored } ==> stored
            <= fetched,
{
    lemma_run_well_formed(s, events);
}

} // verus!
