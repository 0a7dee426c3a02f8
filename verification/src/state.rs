//! The engine's process-wide state container.
//!
//! All mutable registries of the proxy — the watchlist of scheduled
//! proposals, the append-only participation history, the council, the
//! excluded-action set, the watch lock and the collaborator addresses —
//! live in one `ProxyState` value, and every mutation is routed through
//! its methods. Each method states how it changes the state and
//! preserves the well-formedness invariant `wf`: watchlist and history
//! ids are unique and disjoint, history records are terminal, and every
//! armed timer handle is live in the arena and assigned to at most one
//! entry.

use vstd::prelude::*;

use crate::timers::TimerArena;
use crate::types::{
    CanisterError, CouncilMember, ParticipationStatus, ProxyProposal, ProxyProposalQuery,
};

verus! {

/// Whether some watchlist entry carries this proposal id.
pub open spec fn wl_has_id(wl: Seq<ProxyProposal>, id: u64) -> bool {
    exists|i: int| 0 <= i < wl.len() && wl[i].id == id
}

/// The index of the watchlist entry with this id (unique under `wf`).
pub open spec fn wl_index_of(wl: Seq<ProxyProposal>, id: u64) -> int {
    choose|i: int| 0 <= i < wl.len() && wl[i].id == id
}

/// Whether some history record carries this proposal id.
pub open spec fn hist_has_id(h: Seq<ProxyProposalQuery>, id: u64) -> bool {
    exists|i: int| 0 <= i < h.len() && h[i].id == id
}

/// The index of the history record with this id (unique under `wf`).
pub open spec fn hist_index_of(h: Seq<ProxyProposalQuery>, id: u64) -> int {
    choose|i: int| 0 <= i < h.len() && h[i].id == id
}

/// The bytes of the anonymous principal: the placeholder a collaborator
/// address holds before an administrator configures it.
pub open spec fn anonymous_principal() -> Seq<u8> {
    seq![4u8]
}

/// The engine's whole state.
pub struct ProxyState {
    /// The global watch lock: true while the engine is actively
    /// scheduling and voting.
    pub watch_lock: bool,
    /// Handle of the recurring discovery-cycle timer, while watching.
    pub fetcher_timer_id: Option<u64>,
    /// The governance registry's address, as principal bytes; the
    /// anonymous principal while unset.
    pub governance_canister_id: Vec<u8>,
    /// The token ledger's address, as principal bytes; the anonymous
    /// principal while unset.
    pub ledger_canister_id: Vec<u8>,
    /// How many attempts a failing remote interaction is given.
    pub max_retries: u8,
    /// The operator council whose ballots the proxy aggregates.
    pub council_members: Vec<CouncilMember>,
    /// Proposals currently scheduled for a vote.
    pub watching_proposals: Vec<ProxyProposal>,
    /// Append-only record of concluded participations.
    pub proposal_history: Vec<ProxyProposalQuery>,
    /// Action types the engine must never watch.
    pub excluded_action_ids: Vec<u64>,
    /// The low-water mark: the most recently processed proposal as of
    /// the last completed discovery cycle.
    pub last_proposal: Option<ProxyProposalQuery>,
    /// The proxy's own stake identity, once the bootstrap recorded it.
    pub neuron_id: Option<Vec<u8>>,
    /// The arena of scheduled-task handles.
    pub timers: TimerArena,
}

impl ProxyState {
    /// Watchlist entry ids are pairwise distinct.
    pub open spec fn wl_ids_unique(self) -> bool {
        forall|i: int, j: int|
            0 <= i < j < self.watching_proposals@.len()
                ==> self.watching_proposals@[i].id != self.watching_proposals@[j].id
    }

    /// History record ids are pairwise distinct: a proposal concludes at
    /// most once.
    pub open spec fn hist_ids_unique(self) -> bool {
        forall|i: int, j: int|
            0 <= i < j < self.proposal_history@.len()
                ==> self.proposal_history@[i].id != self.proposal_history@[j].id
    }

    /// No proposal id is on the watchlist and in the history at once.
    pub open spec fn wl_hist_disjoint(self) -> bool {
        forall|i: int, j: int|
            0 <= i < self.watching_proposals@.len() && 0 <= j < self.proposal_history@.len()
                ==> self.watching_proposals@[i].id != self.proposal_history@[j].id
    }

    /// Every history record carries a terminal participation status.
    pub open spec fn hist_terminal(self) -> bool {
        forall|j: int|
            0 <= j < self.proposal_history@.len()
                ==> self.proposal_history@[j].participation_status.is_terminal()
    }

    /// Every armed watch-entry timer is live in the arena, assigned to
    /// exactly one entry, and distinct from the fetcher timer, which is
    /// itself live while set.
    pub open spec fn timers_wf(self) -> bool {
        &&& self.timers.wf()
        &&& forall|i: int|
            0 <= i < self.watching_proposals@.len() && self.watching_proposals@[i].timer_id
                is Some ==> self.timers.is_live(self.watching_proposals@[i].timer_id->0)
        &&& forall|i: int, j: int|
            0 <= i < j < self.watching_proposals@.len() && self.watching_proposals@[i].timer_id
                is Some && self.watching_proposals@[j].timer_id is Some
                ==> self.watching_proposals@[i].timer_id->0
                != self.watching_proposals@[j].timer_id->0
        &&& self.fetcher_timer_id is Some ==> self.timers.is_live(self.fetcher_timer_id->0)
        &&& forall|i: int|
            0 <= i < self.watching_proposals@.len() && self.watching_proposals@[i].timer_id
                is Some && self.fetcher_timer_id is Some
                ==> self.watching_proposals@[i].timer_id->0 != self.fetcher_timer_id->0
    }

    /// The engine's well-formedness invariant, established by the
    /// constructors and preserved by every transition.
    pub open spec fn wf(self) -> bool {
        &&& self.wl_ids_unique()
        &&& self.hist_ids_unique()
        &&& self.wl_hist_disjoint()
        &&& self.hist_terminal()
        &&& self.timers_wf()
    }

    /// A fresh engine: watching disabled, every registry empty, both
    /// collaborator addresses unset, and the default retry budget.
    pub fn new() -> (s: ProxyState)
        ensures
            s.wf(),
            !s.watch_lock,
            s.fetcher_timer_id is None,
            s.governance_canister_id@ == anonymous_principal(),
            s.ledger_canister_id@ == anonymous_principal(),
            s.max_retries == 3u8,
            s.council_members@.len() == 0,
            s.watching_proposals@.len() == 0,
            s.proposal_history@.len() == 0,
            s.excluded_action_ids@.len() == 0,
            s.last_proposal is None,
            s.neuron_id is None,
    {
        let mut anon_gov: Vec<u8> = Vec::new();
        anon_gov.push(4u8);
        let mut anon_ledger: Vec<u8> = Vec::new();
        anon_ledger.push(4u8);
        proof {
            assert(anon_gov@ =~= anonymous_principal());
            assert(anon_ledger@ =~= anonymous_principal());
        }
        ProxyState {
            watch_lock: false,
            fetcher_timer_id: None,
            governance_canister_id: anon_gov,
            ledger_canister_id: anon_ledger,
            max_retries: 3,
            council_members: Vec::new(),
            watching_proposals: Vec::new(),
            proposal_history: Vec::new(),
            excluded_action_ids: Vec::new(),
            last_proposal: None,
            neuron_id: None,
            timers: TimerArena::new(),
        }
    }

    /// Rebuild the engine from a persisted snapshot, as after a process
    /// upgrade: addresses, council, history, exclusions and stake
    /// identity are restored; the watchlist, the timers and the watch
    /// lock start afresh, since timers do not survive a restart.
    ///
    /// The snapshot is one this engine wrote, so its history already has
    /// unique ids and terminal statuses.
    pub fn restore(
        governance_canister_id: Vec<u8>,
        ledger_canister_id: Vec<u8>,
        council_members: Vec<CouncilMember>,
        proposal_history: Vec<ProxyProposalQuery>,
        excluded_action_ids: Vec<u64>,
        neuron_id: Option<Vec<u8>>,
    ) -> (s: ProxyState)
        requires
            forall|i: int, j: int|
                0 <= i < j < proposal_history@.len() ==> proposal_history@[i].id
                    != proposal_history@[j].id,
            forall|j: int|
                0 <= j < proposal_history@.len()
                    ==> proposal_history@[j].participation_status.is_terminal(),
        ensures
            s.wf(),
            !s.watch_lock,
            s.fetcher_timer_id is None,
            s.governance_canister_id == governance_canister_id,
            s.ledger_canister_id == ledger_canister_id,
            s.max_retries == 3u8,
            s.council_members == council_members,
            s.watching_proposals@.len() == 0,
            s.proposal_history == proposal_history,
            s.excluded_action_ids == excluded_action_ids,
            s.last_proposal is None,
            s.neuron_id == neuron_id,
    {
        ProxyState {
            watch_lock: false,
            fetcher_timer_id: None,
            governance_canister_id,
            ledger_canister_id,
            max_retries: 3,
            council_members,
            watching_proposals: Vec::new(),
            proposal_history,
            excluded_action_ids,
            last_proposal: None,
            neuron_id,
            timers: TimerArena::new(),
        }
    }

    /// Whether the engine is actively watching.
    pub fn get_watch_lock(&self) -> (r: bool)
        ensures
            r == self.watch_lock,
    {
        self.watch_lock
    }

    /// The recurring discovery timer's handle, while watching.
    pub fn get_fetcher_timer_id(&self) -> (r: Option<u64>)
        ensures
            r == self.fetcher_timer_id,
    {
        self.fetcher_timer_id
    }

    /// The action types the engine must never watch.
    pub fn get_exclusion_list(&self) -> (r: Vec<u64>)
        ensures
            r@ == self.excluded_action_ids@,
    {
        self.excluded_action_ids.clone()
    }

    /// The retry budget for failing remote interactions.
    pub fn get_max_retries(&self) -> (r: u8)
        ensures
            r == self.max_retries,
    {
        self.max_retries
    }

    /// The proxy's own stake identity, or an error while the bootstrap
    /// has not recorded one.
    pub fn get_neuron(&self) -> (r: Result<Vec<u8>, CanisterError>)
        ensures
            self.neuron_id is Some ==> (r matches Ok(n) && n@ == self.neuron_id->0@),
            self.neuron_id is None ==> (r matches Err(e) && e is Unknown),
    {
        match &self.neuron_id {
            Some(n) => Ok(n.clone()),
            None => Err(CanisterError::Unknown("Undefined neuron id".to_string())),
        }
    }

    /// The low-water mark, or an error while none is primed.
    pub fn get_last_proposal_id(&self) -> (r: Result<ProxyProposalQuery, CanisterError>)
        ensures
            self.last_proposal is Some ==> (r matches Ok(q) && q == self.last_proposal->0),
            self.last_proposal is None ==> (r matches Err(e) && e is Unknown),
    {
        match &self.last_proposal {
            Some(q) => Ok(*q),
            None => Err(CanisterError::Unknown("Undefined last proposal id.".to_string())),
        }
    }

    /// The governance registry's address, or a configuration error while
    /// it is unset (still the anonymous principal).
    pub fn get_governance_canister_id(&self) -> (r: Result<Vec<u8>, CanisterError>)
        ensures
            self.governance_canister_id@ == anonymous_principal() ==> (r matches Err(e) && e
                is ConfigurationError),
            self.governance_canister_id@ != anonymous_principal() ==> (r matches Ok(p) && p@
                == self.governance_canister_id@),
    {
        if is_anonymous(&self.governance_canister_id) {
            Err(CanisterError::ConfigurationError)
        } else {
            Ok(self.governance_canister_id.clone())
        }
    }

    /// The token ledger's address, or a configuration error while it is
    /// unset.
    pub fn get_ledger_canister_id(&self) -> (r: Result<Vec<u8>, CanisterError>)
        ensures
            self.ledger_canister_id@ == anonymous_principal() ==> (r matches Err(e) && e
                is ConfigurationError),
            self.ledger_canister_id@ != anonymous_principal() ==> (r matches Ok(p) && p@
                == self.ledger_canister_id@),
    {
        if is_anonymous(&self.ledger_canister_id) {
            Err(CanisterError::ConfigurationError)
        } else {
            Ok(self.ledger_canister_id.clone())
        }
    }

    /// The council, as stored.
    pub fn get_council_members(&self) -> (r: Vec<CouncilMember>)
        ensures
            r@ == self.council_members@,
    {
        let mut r: Vec<CouncilMember> = Vec::new();
        let mut i: usize = 0;
        while i < self.council_members.len()
            invariant
                i <= self.council_members@.len(),
                r@ =~= self.council_members@.subrange(0, i as int),
            decreases self.council_members@.len() - i,
        {
            r.push(self.council_members[i].duplicate());
            i = i + 1;
        }
        proof {
            assert(self.council_members@.subrange(0, self.council_members@.len() as int)
                =~= self.council_members@);
        }
        r
    }

    /// The index of the watchlist entry with this id, if any.
    pub fn find_watch_index(&self, id: u64) -> (r: Option<usize>)
        ensures
            match r {
                Some(i) => i < self.watching_proposals@.len() && self.watching_proposals@[
                    i as int
                ].id == id,
                None => !wl_has_id(self.watching_proposals@, id),
            },
    {
        let mut i: usize = 0;
        while i < self.watching_proposals.len()
            invariant
                i <= self.watching_proposals@.len(),
                forall|k: int| 0 <= k < i ==> self.watching_proposals@[k].id != id,
            decreases self.watching_proposals@.len() - i,
        {
            if self.watching_proposals[i].id == id {
                return Some(i);
            }
            i = i + 1;
        }
        None
    }

    /// Whether the entry with this id is locked by an in-flight vote
    /// attempt; `None` when the id is not on the watchlist.
    pub fn is_proposal_locked(&self, id: u64) -> (r: Option<bool>)
        requires
            self.wf(),
        ensures
            wl_has_id(self.watching_proposals@, id) ==> r == Some(
                self.watching_proposals@[wl_index_of(self.watching_proposals@, id)].lock,
            ),
            !wl_has_id(self.watching_proposals@, id) ==> r is None,
    {
        match self.find_watch_index(id) {
            Some(i) => {
                let ghost j = wl_index_of(self.watching_proposals@, id);
                proof {
                    assert(self.watching_proposals@[j].id == id);
                    assert(j == i as int);
                }
                Some(self.watching_proposals[i].lock)
            },
            None => None,
        }
    }

    /// Set or release the per-entry reentrancy lock.
    ///
    /// Acquiring (`new_lock` true) fails on an id that is not watched or
    /// whose entry is already locked: no two vote attempts for one
    /// proposal may be in flight at once. Releasing is refused only for
    /// an unwatched id.
    pub fn change_proposal_lock(&mut self, id: u64, new_lock: bool) -> (r: Result<
        (),
        CanisterError,
    >)
        requires
            old(self).wf(),
        ensures
            final(self).wf(),
            lock_transition(*old(self), *final(self), id, new_lock, r),
    {
        let ghost wl0 = self.watching_proposals@;
        match self.find_watch_index(id) {
            Some(i) => {
                let ghost j = wl_index_of(wl0, id);
                proof {
                    assert(wl0[j].id == id);
                    assert(j == i as int);
                }
                if new_lock && self.watching_proposals[i].lock {
                    Err(CanisterError::ProposalLocked)
                } else {
                    let entry = &self.watching_proposals[i];
                    let updated = ProxyProposal {
                        id: entry.id,
                        action: entry.action,
                        creation_timestamp: entry.creation_timestamp,
                        timer_id: entry.timer_id,
                        participation_status: entry.participation_status,
                        lock: new_lock,
                        timer_scheduled_for: entry.timer_scheduled_for,
                    };
                    self.watching_proposals.set(i, updated);
                    proof {
                        assert(self.watching_proposals@ =~= wl0.update(
                            j,
                            (ProxyProposal { lock: new_lock, ..wl0[j] }),
                        ));
                        lemma_update_preserves_wf(*old(self), *self, i as int, new_lock);
                    }
                    Ok(())
                }
            },
            None => Err(CanisterError::ProposalIsNotInWatchlist),
        }
    }
}

/// The whole effect of setting or releasing one entry's lock, by
/// outcome: on `Ok` the entry's lock flag is `new_lock` and nothing else
/// changed; each error names its exact cause and leaves the state as it
/// was.
pub open spec fn lock_transition(
    pre: ProxyState,
    post: ProxyState,
    id: u64,
    new_lock: bool,
    r: Result<(), CanisterError>,
) -> bool {
    let wl0 = pre.watching_proposals@;
    match r {
        Ok(()) => {
            &&& wl_has_id(wl0, id)
            &&& !(new_lock && wl0[wl_index_of(wl0, id)].lock)
            &&& post.watching_proposals@ == wl0.update(
                wl_index_of(wl0, id),
                (ProxyProposal { lock: new_lock, ..wl0[wl_index_of(wl0, id)] }),
            )
            &&& post == (ProxyState { watching_proposals: post.watching_proposals, ..pre })
        },
        Err(CanisterError::ProposalIsNotInWatchlist) => !wl_has_id(wl0, id) && post == pre,
        Err(CanisterError::ProposalLocked) => wl_has_id(wl0, id) && new_lock && wl0[wl_index_of(
            wl0,
            id,
        )].lock && post == pre,
        _ => false,
    }
}

/// The whole effect of releasing one entry's lock: when `id` is watched
/// in `pre` its lock flag is cleared and nothing else changes; otherwise
/// the state is untouched.
pub open spec fn unlocked(pre: ProxyState, post: ProxyState, id: u64) -> bool {
    if wl_has_id(pre.watching_proposals@, id) {
        let wl0 = pre.watching_proposals@;
        let i = wl_index_of(wl0, id);
        &&& post.watching_proposals@ == wl0.update(i, (ProxyProposal { lock: false, ..wl0[i] }))
        &&& post == (ProxyState { watching_proposals: post.watching_proposals, ..pre })
    } else {
        post == pre
    }
}

/// The whole effect of concluding one proposal with a terminal status.
/// When `id` is watched in `pre`, its entry is removed, its timer is
/// cancelled and exactly one history record is appended; otherwise the
/// state is unchanged and no record is written.
pub open spec fn concluded(
    pre: ProxyState,
    post: ProxyState,
    id: u64,
    action: u64,
    creation_timestamp: u64,
    status: ParticipationStatus,
) -> bool {
    if wl_has_id(pre.watching_proposals@, id) {
        let wl0 = pre.watching_proposals@;
        let i = wl_index_of(wl0, id);
        &&& post.watching_proposals@ == wl0.remove(i)
        &&& post.proposal_history@ == pre.proposal_history@.push(
            (ProxyProposalQuery {
                id,
                action,
                creation_timestamp,
                participation_status: status,
                timer_scheduled_for: None,
            }),
        )
        &&& (wl0[i].timer_id is Some ==> !post.timers.is_live(wl0[i].timer_id->0))
        &&& forall|x: u64|
            (wl0[i].timer_id is Some ==> x != wl0[i].timer_id->0) ==> post.timers.is_live(x)
                == pre.timers.is_live(x)
        &&& post.timers.next_id == pre.timers.next_id
        &&& post == (ProxyState {
            watching_proposals: post.watching_proposals,
            proposal_history: post.proposal_history,
            timers: post.timers,
            ..pre
        })
    } else {
        post == pre
    }
}

impl ProxyState {
    /// Conclude a watched proposal: remove its entry from the watchlist,
    /// cancel its timer, and append one history record carrying the
    /// terminal `status` — a single atomic step, so no suspension point
    /// ever sees the id in both registries or in neither.
    ///
    /// When the id is not on the watchlist (the entry was evicted or
    /// watching was stopped while a vote attempt was in flight), nothing
    /// is mutated and no history record is written.
    pub fn move_to_history(
        &mut self,
        id: u64,
        action: u64,
        creation_timestamp: u64,
        status: ParticipationStatus,
    ) -> (moved: bool)
        requires
            old(self).wf(),
            status.is_terminal(),
        ensures
            final(self).wf(),
            moved == wl_has_id(old(self).watching_proposals@, id),
            concluded(*old(self), *final(self), id, action, creation_timestamp, status),
    {
        let ghost wl0 = self.watching_proposals@;
        match self.find_watch_index(id) {
            Some(i) => {
                let ghost j = wl_index_of(wl0, id);
                proof {
                    assert(wl0[j].id == id);
                    assert(j == i as int);
                }
                let entry = self.watching_proposals[i];
                if let Some(h) = entry.timer_id {
                    self.timers.cancel(h);
                }
                self.watching_proposals.remove(i);
                self.proposal_history.push(ProxyProposalQuery {
                    id,
                    action,
                    creation_timestamp,
                    participation_status: status,
                    timer_scheduled_for: None,
                });
                proof {
                    lemma_move_preserves_wf(*old(self), *self, j, id);
                }
                true
            },
            None => false,
        }
    }
}

/// Removing one watchlist entry, cancelling its timer and appending one
/// terminal history record with its id preserves well-formedness.
proof fn lemma_move_preserves_wf(pre: ProxyState, post: ProxyState, i: int, id: u64)
    requires
        pre.wf(),
        0 <= i < pre.watching_proposals@.len(),
        pre.watching_proposals@[i].id == id,
        post.watching_proposals@ == pre.watching_proposals@.remove(i),
        post.proposal_history@.len() == pre.proposal_history@.len() + 1,
        forall|k: int|
            0 <= k < pre.proposal_history@.len() ==> post.proposal_history@[k]
                == pre.proposal_history@[k],
        post.proposal_history@[pre.proposal_history@.len() as int].id == id,
        post.proposal_history@[
            pre.proposal_history@.len() as int
        ].participation_status.is_terminal(),
        post.timers.wf(),
        forall|x: u64|
            (pre.watching_proposals@[i].timer_id is Some ==> x
                != pre.watching_proposals@[i].timer_id->0) ==> post.timers.is_live(x)
                == pre.timers.is_live(x),
        post.fetcher_timer_id == pre.fetcher_timer_id,
    ensures
        post.wf(),
{
    let wl0 = pre.watching_proposals@;
    let wl1 = post.watching_proposals@;
    let h0 = pre.proposal_history@;
    let h1 = post.proposal_history@;
    wl0.remove_ensures(i);
    // each remaining entry comes from a distinct old index other than i
    assert forall|a: int| 0 <= a < wl1.len() implies {
        &&& wl1[a] == wl0[(if a < i { a } else { a + 1 })]
        &&& (if a < i { a } else { a + 1 }) != i
    } by {}
    assert(post.wl_ids_unique());
    assert forall|a: int| 0 <= a < wl1.len() implies wl1[a].id != id by {
        let a0: int = if a < i { a } else { a + 1 };
        assert(wl1[a] == wl0[a0]);
        if a0 < i {
            assert(wl0[a0].id != wl0[i].id);
        } else {
            assert(wl0[i].id != wl0[a0].id);
        }
    }
    assert(post.hist_ids_unique()) by {
        assert forall|a: int, b: int| 0 <= a < b < h1.len() implies h1[a].id != h1[b].id by {
            if b < h0.len() {
                assert(h1[a] == h0[a] && h1[b] == h0[b]);
            } else {
                assert(h1[a] == h0[a]);
                assert(wl0[i].id != h0[a].id);
            }
        }
    }
    assert(post.wl_hist_disjoint()) by {
        assert forall|a: int, b: int|
            0 <= a < wl1.len() && 0 <= b < h1.len() implies wl1[a].id != h1[b].id by {
            let a0: int = if a < i { a } else { a + 1 };
            assert(wl1[a] == wl0[a0]);
            if b < h0.len() {
                assert(h1[b] == h0[b]);
            } else {
                assert(h1[b].id == id);
            }
        }
    }
    assert(post.hist_terminal()) by {
        assert forall|b: int|
            0 <= b < h1.len() implies h1[b].participation_status.is_terminal() by {
            if b < h0.len() {
                assert(h1[b] == h0[b]);
            }
        }
    }
    assert(post.timers_wf()) by {
        assert forall|a: int|
            0 <= a < wl1.len() && wl1[a].timer_id is Some implies post.timers.is_live(
            wl1[a].timer_id->0,
        ) by {
            let a0: int = if a < i { a } else { a + 1 };
            assert(wl1[a] == wl0[a0]);
            if wl0[i].timer_id is Some {
                if a0 < i {
                    assert(wl0[a0].timer_id->0 != wl0[i].timer_id->0);
                } else {
                    assert(wl0[i].timer_id->0 != wl0[a0].timer_id->0);
                }
            }
        }
        assert forall|a: int, b: int|
            0 <= a < b < wl1.len() && wl1[a].timer_id is Some && wl1[b].timer_id
                is Some implies wl1[a].timer_id->0 != wl1[b].timer_id->0 by {
            let a0: int = if a < i { a } else { a + 1 };
            let b0: int = if b < i { b } else { b + 1 };
            assert(wl1[a] == wl0[a0] && wl1[b] == wl0[b0]);
            assert(a0 < b0);
        }
        if post.fetcher_timer_id is Some {
            if wl0[i].timer_id is Some {
                assert(wl0[i].timer_id->0 != pre.fetcher_timer_id->0);
            }
            assert(post.timers.is_live(post.fetcher_timer_id->0));
            assert forall|a: int|
                0 <= a < wl1.len() && wl1[a].timer_id is Some implies wl1[a].timer_id->0
                != post.fetcher_timer_id->0 by {
                let a0: int = if a < i { a } else { a + 1 };
                assert(wl1[a] == wl0[a0]);
            }
        }
    }
}

/// Reject the anonymous principal: a collaborator address must have
/// been configured before it is used.
pub fn not_anonymous(p: &Vec<u8>) -> (r: Result<(), CanisterError>)
    ensures
        p@ == anonymous_principal() ==> r matches Err(CanisterError::ConfigurationError),
        p@ != anonymous_principal() ==> r matches Ok(()),
{
    if is_anonymous(p) {
        Err(CanisterError::ConfigurationError)
    } else {
        Ok(())
    }
}

/// Whether these principal bytes are the anonymous principal.
pub fn is_anonymous(p: &Vec<u8>) -> (r: bool)
    ensures
        r == (p@ == anonymous_principal()),
{
    if p.len() == 1 && p[0] == 4u8 {
        proof {
            assert(p@ =~= anonymous_principal());
        }
        true
    } else {
        proof {
            if p@.len() == anonymous_principal().len() {
                assert(p@[0] != anonymous_principal()[0]);
            }
        }
        false
    }
}

/// Updating one entry's lock flag touches no id, timer handle or status,
/// so it preserves well-formedness.
proof fn lemma_update_preserves_wf(pre: ProxyState, post: ProxyState, i: int, new_lock: bool)
    requires
        pre.wf(),
        0 <= i < pre.watching_proposals@.len(),
        post.watching_proposals@ == pre.watching_proposals@.update(
            i,
            (ProxyProposal { lock: new_lock, ..pre.watching_proposals@[i] }),
        ),
        post == (ProxyState { watching_proposals: post.watching_proposals, ..pre }),
    ensures
        post.wf(),
{
    assert forall|k: int| 0 <= k < post.watching_proposals@.len() implies {
        &&& post.watching_proposals@[k].id == pre.watching_proposals@[k].id
        &&& post.watching_proposals@[k].timer_id == pre.watching_proposals@[k].timer_id
    } by {
        if k != i {
            assert(post.watching_proposals@[k] == pre.watching_proposals@[k]);
        }
    }
}

} // verus!
