//! Administrative operations and the plans handed to the driver.
//!
//! These methods are the engine's outward surface besides discovery and
//! voting: configuring collaborator addresses, council and exclusion-set
//! CRUD, read-only queries, and the bootstrap sequence that stakes and
//! claims the proxy's own neuron. Authorization (only the controller may
//! administrate) is checked by the driver before it calls in.

use vstd::prelude::*;

use crate::seqs::{
    lemma_filter_preserves_distinct, lemma_filter_push, lemma_filter_sub, lemma_push_contains,
};
use crate::state::{
    anonymous_principal, hist_has_id, hist_index_of, wl_has_id, wl_index_of, ProxyState,
};
use crate::types::{
    query_of, CanisterError, ConfigurePlan, CouncilMember, ParticipationStatus, ProxyProposal,
    ProxyProposalQuery, RegisterVotePlan, TransferPlan,
};

verus! {

impl ProxyState {
    /// Set the governance registry's address.
    pub fn set_governance_id(&mut self, canister_id: Vec<u8>)
        requires
            old(self).wf(),
        ensures
            final(self).wf(),
            final(self).governance_canister_id == canister_id,
            *final(self) == (ProxyState {
                governance_canister_id: final(self).governance_canister_id,
                ..*old(self)
            }),
    {
        self.governance_canister_id = canister_id;
    }

    /// Set the token ledger's address.
    pub fn set_ledger_id(&mut self, canister_id: Vec<u8>)
        requires
            old(self).wf(),
        ensures
            final(self).wf(),
            final(self).ledger_canister_id == canister_id,
            *final(self) == (ProxyState {
                ledger_canister_id: final(self).ledger_canister_id,
                ..*old(self)
            }),
    {
        self.ledger_canister_id = canister_id;
    }

    /// Append a member to the council. Uniqueness of `neuron_id` is not
    /// enforced, matching the stored-as-given council semantics.
    pub fn add_council_member(&mut self, name: String, neuron_id: String)
        requires
            old(self).wf(),
        ensures
            final(self).wf(),
            final(self).council_members@ == old(self).council_members@.push(
                (CouncilMember { name, neuron_id }),
            ),
            *final(self) == (ProxyState {
                council_members: final(self).council_members,
                ..*old(self)
            }),
    {
        self.council_members.push(CouncilMember { name, neuron_id });
    }

    /// Remove every council member with this `neuron_id`.
    pub fn remove_council_member(&mut self, neuron_id: String)
        requires
            old(self).wf(),
        ensures
            final(self).wf(),
            final(self).council_members@ == old(self).council_members@.filter(
                |m: CouncilMember| m.neuron_id@ != neuron_id@,
            ),
            *final(self) == (ProxyState {
                council_members: final(self).council_members,
                ..*old(self)
            }),
    {
        let ghost c0 = self.council_members@;
        let ghost pred = |m: CouncilMember| m.neuron_id@ != neuron_id@;
        let mut kept: Vec<CouncilMember> = Vec::new();
        let mut i: usize = 0;
        while i < self.council_members.len()
            invariant
                i <= c0.len(),
                self.council_members@ == c0,
                pred == (|m: CouncilMember| m.neuron_id@ != neuron_id@),
                kept@ == c0.subrange(0, i as int).filter(pred),
            decreases c0.len() - i,
        {
            let m = self.council_members[i].duplicate();
            proof {
                assert(m == c0[i as int]);
                assert(c0.subrange(0, i + 1 as int) =~= c0.subrange(0, i as int).push(
                    c0[i as int],
                ));
                lemma_filter_push(c0.subrange(0, i as int), pred, c0[i as int]);
            }
            if !(m.neuron_id == neuron_id) {
                kept.push(m);
            }
            i = i + 1;
        }
        proof {
            assert(c0.subrange(0, c0.len() as int) =~= c0);
        }
        self.council_members = kept;
    }

    /// Drop the whole council at once.
    pub fn emergency_reset(&mut self)
        requires
            old(self).wf(),
        ensures
            final(self).wf(),
            final(self).council_members@.len() == 0,
            *final(self) == (ProxyState {
                council_members: final(self).council_members,
                ..*old(self)
            }),
    {
        self.council_members.clear();
    }

    /// Forget every concluded participation. The watchlist is untouched.
    pub fn clear_proposal_history(&mut self)
        requires
            old(self).wf(),
        ensures
            final(self).wf(),
            final(self).proposal_history@.len() == 0,
            *final(self) == (ProxyState {
                proposal_history: final(self).proposal_history,
                ..*old(self)
            }),
    {
        self.proposal_history.clear();
    }

    /// Allow an action type again: remove it from the exclusion set.
    /// This has no retroactive effect on anything already watched or
    /// concluded.
    pub fn allow_action_type(&mut self, action_type: u64)
        requires
            old(self).wf(),
        ensures
            final(self).wf(),
            final(self).excluded_action_ids@ == old(self).excluded_action_ids@.filter(
                |a: u64| a != action_type,
            ),
            *final(self) == (ProxyState {
                excluded_action_ids: final(self).excluded_action_ids,
                ..*old(self)
            }),
    {
        let ghost e0 = self.excluded_action_ids@;
        let ghost pred = |a: u64| a != action_type;
        let mut kept: Vec<u64> = Vec::new();
        let mut i: usize = 0;
        while i < self.excluded_action_ids.len()
            invariant
                i <= e0.len(),
                self.excluded_action_ids@ == e0,
                pred == (|a: u64| a != action_type),
                kept@ == e0.subrange(0, i as int).filter(pred),
            decreases e0.len() - i,
        {
            let a = self.excluded_action_ids[i];
            proof {
                assert(e0.subrange(0, i + 1 as int) =~= e0.subrange(0, i as int).push(
                    e0[i as int],
                ));
                lemma_filter_push(e0.subrange(0, i as int), pred, e0[i as int]);
            }
            if a != action_type {
                kept.push(a);
            }
            i = i + 1;
        }
        proof {
            assert(e0.subrange(0, e0.len() as int) =~= e0);
        }
        self.excluded_action_ids = kept;
    }

    /// The council, as the outward query surface reports it.
    pub fn get_council(&self) -> (r: Vec<CouncilMember>)
        ensures
            r@ == self.council_members@,
    {
        self.get_council_members()
    }

    /// The proxy's own stake identity, as the outward query surface
    /// reports it.
    pub fn get_neuron_id(&self) -> (r: Result<Vec<u8>, CanisterError>)
        ensures
            self.neuron_id is Some ==> (r matches Ok(n) && n@ == self.neuron_id->0@),
            self.neuron_id is None ==> (r matches Err(e) && e is Unknown),
    {
        self.get_neuron()
    }

    /// The governance registry's address, as the outward query surface
    /// reports it.
    pub fn get_governance_id(&self) -> (r: Result<Vec<u8>, CanisterError>)
        ensures
            self.governance_canister_id@ == anonymous_principal() ==> (r matches Err(e) && e
                is ConfigurationError),
            self.governance_canister_id@ != anonymous_principal() ==> (r matches Ok(p) && p@
                == self.governance_canister_id@),
    {
        self.get_governance_canister_id()
    }

    /// The token ledger's address, as the outward query surface reports
    /// it.
    pub fn get_ledger_id(&self) -> (r: Result<Vec<u8>, CanisterError>)
        ensures
            self.ledger_canister_id@ == anonymous_principal() ==> (r matches Err(e) && e
                is ConfigurationError),
            self.ledger_canister_id@ != anonymous_principal() ==> (r matches Ok(p) && p@
                == self.ledger_canister_id@),
    {
        self.get_ledger_canister_id()
    }

    /// Whether the engine is watching: the watch lock, read-only.
    pub fn get_watching_status(&self) -> (r: bool)
        ensures
            r == self.watch_lock,
    {
        self.watch_lock
    }

    /// The current watchlist, as outward views.
    pub fn get_proposal_watchlist(&self) -> (r: Vec<ProxyProposalQuery>)
        ensures
            r@.len() == self.watching_proposals@.len(),
            forall|i: int| 0 <= i < r@.len() ==> r@[i] == query_of(self.watching_proposals@[i]),
    {
        let mut r: Vec<ProxyProposalQuery> = Vec::new();
        let mut i: usize = 0;
        while i < self.watching_proposals.len()
            invariant
                i <= self.watching_proposals@.len(),
                r@.len() == i,
                forall|k: int| 0 <= k < i ==> r@[k] == query_of(self.watching_proposals@[k]),
            decreases self.watching_proposals@.len() - i,
        {
            r.push(self.watching_proposals[i].to_query());
            i = i + 1;
        }
        r
    }

    /// The concluded participations, in the order they were recorded.
    pub fn get_proposal_history(&self) -> (r: Vec<ProxyProposalQuery>)
        ensures
            r@ == self.proposal_history@,
    {
        let mut r: Vec<ProxyProposalQuery> = Vec::new();
        let mut i: usize = 0;
        while i < self.proposal_history.len()
            invariant
                i <= self.proposal_history@.len(),
                r@ =~= self.proposal_history@.subrange(0, i as int),
            decreases self.proposal_history@.len() - i,
        {
            r.push(self.proposal_history[i]);
            i = i + 1;
        }
        proof {
            assert(self.proposal_history@.subrange(0, self.proposal_history@.len() as int)
                =~= self.proposal_history@);
        }
        r
    }

    /// The index of the history record with this id, if any.
    pub fn find_history_index(&self, id: u64) -> (r: Option<usize>)
        ensures
            match r {
                Some(i) => i < self.proposal_history@.len() && self.proposal_history@[i as int].id
                    == id,
                None => !hist_has_id(self.proposal_history@, id),
            },
    {
        let mut i: usize = 0;
        while i < self.proposal_history.len()
            invariant
                i <= self.proposal_history@.len(),
                forall|k: int| 0 <= k < i ==> self.proposal_history@[k].id != id,
            decreases self.proposal_history@.len() - i,
        {
            if self.proposal_history[i].id == id {
                return Some(i);
            }
            i = i + 1;
        }
        None
    }

    /// Where the proxy stands on one proposal: its history record if it
    /// concluded, its watchlist view if it is still scheduled, `None` if
    /// it is unknown. Under `wf` the two registries are disjoint, so at
    /// most one holds the id.
    pub fn get_proposal_status(&self, id: u64) -> (r: Option<ProxyProposalQuery>)
        requires
            self.wf(),
        ensures
            hist_has_id(self.proposal_history@, id) ==> r == Some(
                self.proposal_history@[hist_index_of(self.proposal_history@, id)],
            ),
            !hist_has_id(self.proposal_history@, id) && wl_has_id(self.watching_proposals@, id)
                ==> r == Some(
                query_of(self.watching_proposals@[wl_index_of(self.watching_proposals@, id)]),
            ),
            !hist_has_id(self.proposal_history@, id) && !wl_has_id(self.watching_proposals@, id)
                ==> r is None,
    {
        match self.find_history_index(id) {
            Some(i) => {
                let ghost j = hist_index_of(self.proposal_history@, id);
                proof {
                    assert(self.proposal_history@[j].id == id);
                    assert(j == i as int);
                }
                Some(self.proposal_history[i])
            },
            None => match self.find_watch_index(id) {
                Some(i) => {
                    let ghost j = wl_index_of(self.watching_proposals@, id);
                    proof {
                        assert(self.watching_proposals@[j].id == id);
                        assert(j == i as int);
                    }
                    Some(self.watching_proposals[i].to_query())
                },
                None => None,
            },
        }
    }

    /// Record the stake identity the claim call returned. Refused when
    /// one is already recorded: the bootstrap runs once.
    pub fn record_claimed_neuron(&mut self, neuron: Vec<u8>) -> (r: Result<(), CanisterError>)
        requires
            old(self).wf(),
        ensures
            final(self).wf(),
            old(self).neuron_id is Some ==> (r matches Err(CanisterError::NeuronAlreadySet)
                && *final(self) == *old(self)),
            old(self).neuron_id is None ==> (r matches Ok(()) && final(self).neuron_id == Some(
                neuron,
            ) && *final(self) == (ProxyState { neuron_id: final(self).neuron_id, ..*old(self) })),
    {
        if self.neuron_id.is_some() {
            return Err(CanisterError::NeuronAlreadySet);
        }
        self.neuron_id = Some(neuron);
        Ok(())
    }

    /// The bootstrap's first step: the ledger transfer that stakes
    /// `amount` at the proxy's staking subaccount, tagged with `nonce`.
    ///
    /// Refused while a stake identity is already recorded (the bootstrap
    /// is non-reentrant) and while either collaborator address is unset.
    /// No plan, no transfer: the driver only moves funds on an `Ok`.
    /// The staking subaccount is derived by the driver from the proxy's
    /// own identity and `nonce`, and handed in as plain bytes.
    pub fn plan_create_neuron(
        &self,
        staking_subaccount: Vec<u8>,
        nonce: u64,
        amount: u64,
    ) -> (r: Result<TransferPlan, CanisterError>)
        ensures
            self.neuron_id is Some ==> r matches Err(CanisterError::NeuronAlreadySet),
            self.neuron_id is None && self.governance_canister_id@ == anonymous_principal()
                ==> r matches Err(CanisterError::ConfigurationError),
            self.neuron_id is None && self.governance_canister_id@ != anonymous_principal()
                && self.ledger_canister_id@ == anonymous_principal() ==> r matches Err(
                CanisterError::ConfigurationError,
            ),
            self.neuron_id is None && self.governance_canister_id@ != anonymous_principal()
                && self.ledger_canister_id@ != anonymous_principal() ==> (r matches Ok(p) && ({
                &&& p.to_owner@ == self.governance_canister_id@
                &&& p.to_subaccount@ == staking_subaccount@
                &&& p.memo == nonce
                &&& p.amount == amount
            })),
    {
        if self.neuron_id.is_some() {
            return Err(CanisterError::NeuronAlreadySet);
        }
        let to_owner = match self.get_governance_canister_id() {
            Ok(p) => p,
            Err(e) => {
                return Err(e);
            },
        };
        match self.get_ledger_canister_id() {
            Ok(_) => {},
            Err(e) => {
                return Err(e);
            },
        }
        Ok(TransferPlan { to_owner, to_subaccount: staking_subaccount, memo: nonce, amount })
    }

    /// The neuron-configuration command that extends the stake's
    /// dissolve delay; refused while the stake identity or the
    /// governance address is missing.
    pub fn plan_increase_dissolve_delay(&self, delay: u32) -> (r: Result<
        ConfigurePlan,
        CanisterError,
    >)
        ensures
            self.neuron_id is None ==> (r matches Err(e) && e is Unknown),
            self.neuron_id is Some && self.governance_canister_id@ == anonymous_principal()
                ==> r matches Err(CanisterError::ConfigurationError),
            self.neuron_id is Some && self.governance_canister_id@ != anonymous_principal()
                ==> (r matches Ok(p) && p.neuron_subaccount@ == self.neuron_id->0@
                && p.additional_dissolve_delay_seconds == delay),
    {
        let neuron = match self.get_neuron() {
            Ok(n) => n,
            Err(e) => {
                return Err(e);
            },
        };
        match self.get_governance_canister_id() {
            Ok(_) => {},
            Err(e) => {
                return Err(e);
            },
        }
        Ok(ConfigurePlan { neuron_subaccount: neuron, additional_dissolve_delay_seconds: delay })
    }

    /// The vote-casting command for one proposal; refused while the
    /// stake identity or the governance address is missing.
    pub fn plan_register_vote(&self, proposal_id: u64, vote: i32) -> (r: Result<
        RegisterVotePlan,
        CanisterError,
    >)
        ensures
            self.neuron_id is None ==> (r matches Err(e) && e is Unknown),
            self.neuron_id is Some && self.governance_canister_id@ == anonymous_principal()
                ==> r matches Err(CanisterError::ConfigurationError),
            self.neuron_id is Some && self.governance_canister_id@ != anonymous_principal()
                ==> (r matches Ok(p) && p.neuron_subaccount@ == self.neuron_id->0@ && p.proposal_id
                == proposal_id && p.vote == vote),
    {
        let neuron = match self.get_neuron() {
            Ok(n) => n,
            Err(e) => {
                return Err(e);
            },
        };
        match self.get_governance_canister_id() {
            Ok(_) => {},
            Err(e) => {
                return Err(e);
            },
        }
        Ok(RegisterVotePlan { neuron_subaccount: neuron, proposal_id, vote })
    }
}

/// Whether `x` is the timer handle of some entry among the first `upto`
/// watchlist entries whose action type is `action_type`.
pub open spec fn evicted_timer_handle(
    wl: Seq<ProxyProposal>,
    upto: int,
    action_type: u64,
    x: u64,
) -> bool {
    exists|k: int|
        0 <= k < upto && wl[k].action == action_type && wl[k].timer_id is Some
            && wl[k].timer_id->0 == x
}

impl ProxyState {
    /// Disallow an action type: add it to the exclusion set and evict
    /// every live watchlist entry of that type, cancelling each evicted
    /// entry's timer. Eviction is not a participation outcome: no
    /// history record is written. The returned vector holds exactly the
    /// cancelled handles, for the driver to clear its real timers.
    pub fn disallow_action_type(&mut self, action_type: u64) -> (cancelled: Vec<u64>)
        requires
            old(self).wf(),
        ensures
            final(self).wf(),
            final(self).excluded_action_ids@ == old(self).excluded_action_ids@.push(action_type),
            final(self).watching_proposals@ == old(self).watching_proposals@.filter(
                |p: ProxyProposal| p.action != action_type,
            ),
            final(self).proposal_history@ == old(self).proposal_history@,
            final(self).timers.next_id == old(self).timers.next_id,
            forall|x: u64|
                evicted_timer_handle(
                    old(self).watching_proposals@,
                    old(self).watching_proposals@.len() as int,
                    action_type,
                    x,
                ) ==> !final(self).timers.is_live(x),
            forall|x: u64|
                !evicted_timer_handle(
                    old(self).watching_proposals@,
                    old(self).watching_proposals@.len() as int,
                    action_type,
                    x,
                ) ==> final(self).timers.is_live(x) == old(self).timers.is_live(x),
            forall|x: u64|
                cancelled@.contains(x) == evicted_timer_handle(
                    old(self).watching_proposals@,
                    old(self).watching_proposals@.len() as int,
                    action_type,
                    x,
                ),
            *final(self) == (ProxyState {
                excluded_action_ids: final(self).excluded_action_ids,
                watching_proposals: final(self).watching_proposals,
                timers: final(self).timers,
                ..*old(self)
            }),
    {
        let ghost wl0 = self.watching_proposals@;
        let ghost pred = |p: ProxyProposal| p.action != action_type;
        let mut kept: Vec<ProxyProposal> = Vec::new();
        let mut cancelled: Vec<u64> = Vec::new();
        let mut i: usize = 0;
        while i < self.watching_proposals.len()
            invariant
                i <= wl0.len(),
                old(self).wf(),
                wl0 == old(self).watching_proposals@,
                pred == (|p: ProxyProposal| p.action != action_type),
                *self == (ProxyState { timers: self.timers, ..*old(self) }),
                kept@ == wl0.subrange(0, i as int).filter(pred),
                self.timers.wf(),
                self.timers.next_id == old(self).timers.next_id,
                forall|x: u64|
                    evicted_timer_handle(wl0, i as int, action_type, x) ==> !self.timers.is_live(
                        x,
                    ),
                forall|x: u64|
                    !evicted_timer_handle(wl0, i as int, action_type, x) ==> self.timers.is_live(x)
                        == old(self).timers.is_live(x),
                forall|x: u64|
                    cancelled@.contains(x) == evicted_timer_handle(wl0, i as int, action_type, x),
            decreases wl0.len() - i,
        {
            let entry = self.watching_proposals[i];
            proof {
                assert(entry == wl0[i as int]);
                assert(wl0.subrange(0, i + 1 as int) =~= wl0.subrange(0, i as int).push(
                    wl0[i as int],
                ));
                lemma_filter_push(wl0.subrange(0, i as int), pred, wl0[i as int]);
            }
            if entry.action != action_type {
                kept.push(entry);
                proof {
                    assert forall|x: u64|
                        evicted_timer_handle(wl0, i + 1 as int, action_type, x)
                            == evicted_timer_handle(wl0, i as int, action_type, x) by {
                        if evicted_timer_handle(wl0, i + 1 as int, action_type, x) {
                            let k = choose|k: int|
                                0 <= k < i + 1 && wl0[k].action == action_type && wl0[k].timer_id
                                    is Some && wl0[k].timer_id->0 == x;
                            assert(k != i as int);
                            assert(evicted_timer_handle(wl0, i as int, action_type, x));
                        }
                        if evicted_timer_handle(wl0, i as int, action_type, x) {
                            let k = choose|k: int|
                                0 <= k < i && wl0[k].action == action_type && wl0[k].timer_id
                                    is Some && wl0[k].timer_id->0 == x;
                            assert(evicted_timer_handle(wl0, i + 1 as int, action_type, x));
                        }
                    }
                    assert forall|x: u64|
                        cancelled@.contains(x) == evicted_timer_handle(
                        wl0,
                        i + 1 as int,
                        action_type,
                        x,
                    ) by {
                        assert(cancelled@.contains(x) == evicted_timer_handle(
                            wl0,
                            i as int,
                            action_type,
                            x,
                        ));
                    }
                }
            } else {
                let ghost old_cancelled = cancelled@;
                if let Some(h) = entry.timer_id {
                    self.timers.cancel(h);
                    cancelled.push(h);
                    proof {
                        lemma_push_contains(old_cancelled, h);
                    }
                }
                proof {
                    assert forall|x: u64|
                        evicted_timer_handle(wl0, i + 1 as int, action_type, x) == (
                        evicted_timer_handle(wl0, i as int, action_type, x) || (wl0[
                            i as int
                        ].timer_id is Some && wl0[i as int].timer_id->0 == x)) by {
                        if evicted_timer_handle(wl0, i + 1 as int, action_type, x) {
                            let k = choose|k: int|
                                0 <= k < i + 1 && wl0[k].action == action_type && wl0[k].timer_id
                                    is Some && wl0[k].timer_id->0 == x;
                            if k < i as int {
                                assert(evicted_timer_handle(wl0, i as int, action_type, x));
                            }
                        }
                        if evicted_timer_handle(wl0, i as int, action_type, x) {
                            let k = choose|k: int|
                                0 <= k < i && wl0[k].action == action_type && wl0[k].timer_id
                                    is Some && wl0[k].timer_id->0 == x;
                            assert(evicted_timer_handle(wl0, i + 1 as int, action_type, x));
                        }
                        if wl0[i as int].timer_id is Some && wl0[i as int].timer_id->0 == x {
                            assert(evicted_timer_handle(wl0, i + 1 as int, action_type, x));
                        }
                    }
                    assert forall|x: u64|
                        cancelled@.contains(x) == evicted_timer_handle(
                        wl0,
                        i + 1 as int,
                        action_type,
                        x,
                    ) by {
                        if wl0[i as int].timer_id is Some {
                            assert(cancelled@ == old_cancelled.push(wl0[i as int].timer_id->0));
                            assert(cancelled@.contains(x) == (old_cancelled.contains(x) || x
                                == wl0[i as int].timer_id->0));
                        } else {
                            assert(cancelled@ == old_cancelled);
                        }
                        assert(old_cancelled.contains(x) == evicted_timer_handle(
                            wl0,
                            i as int,
                            action_type,
                            x,
                        ));
                    }
                }
            }
            i = i + 1;
        }
        proof {
            assert(wl0.subrange(0, wl0.len() as int) =~= wl0);
        }
        self.watching_proposals = kept;
        self.excluded_action_ids.push(action_type);
        proof {
            lemma_disallow_preserves_wf(*old(self), *self, action_type);
        }
        cancelled
    }
}

/// Evicting every entry of one action type and cancelling exactly their
/// timers preserves well-formedness.
proof fn lemma_disallow_preserves_wf(pre: ProxyState, post: ProxyState, action_type: u64)
    requires
        pre.wf(),
        post.watching_proposals@ == pre.watching_proposals@.filter(
            |p: ProxyProposal| p.action != action_type,
        ),
        post.proposal_history@ == pre.proposal_history@,
        post.fetcher_timer_id == pre.fetcher_timer_id,
        post.timers.wf(),
        forall|x: u64|
            !evicted_timer_handle(
                pre.watching_proposals@,
                pre.watching_proposals@.len() as int,
                action_type,
                x,
            ) ==> post.timers.is_live(x) == pre.timers.is_live(x),
    ensures
        post.wf(),
{
    let wl0 = pre.watching_proposals@;
    let pred = |p: ProxyProposal| p.action != action_type;
    let wl1 = post.watching_proposals@;
    lemma_filter_sub(wl0, pred);
    broadcast use vstd::seq_lib::group_filter_ensures;

    // ids stay pairwise distinct, and so do assigned timer handles
    lemma_filter_preserves_distinct(wl0, pred, |p: ProxyProposal| p.id);
    assert(post.wl_ids_unique()) by {
        assert forall|i: int, j: int| 0 <= i < j < wl1.len() implies wl1[i].id != wl1[j].id by {
            let f = |p: ProxyProposal| p.id;
            assert(f(wl1[i]) != f(wl1[j]));
        }
    }
    lemma_filter_preserves_distinct(wl0, pred, |p: ProxyProposal| (p.timer_id, p.id));
    assert(post.wl_hist_disjoint()) by {
        assert forall|a: int, b: int|
            0 <= a < wl1.len() && 0 <= b < post.proposal_history@.len() implies wl1[a].id
            != post.proposal_history@[b].id by {
            let k = choose|k: int| 0 <= k < wl0.len() && wl1[a] == wl0[k];
            assert(wl0[k].id != pre.proposal_history@[b].id);
        }
    }
    assert(post.timers_wf()) by {
        assert forall|a: int|
            0 <= a < wl1.len() && wl1[a].timer_id is Some implies post.timers.is_live(
            wl1[a].timer_id->0,
        ) by {
            let k = choose|k: int| 0 <= k < wl0.len() && wl1[a] == wl0[k];
            assert(pred(wl1[a]));
            assert(pre.timers.is_live(wl0[k].timer_id->0));
            let h = wl0[k].timer_id->0;
            assert(!evicted_timer_handle(wl0, wl0.len() as int, action_type, h)) by {
                if evicted_timer_handle(wl0, wl0.len() as int, action_type, h) {
                    let j = choose|j: int|
                        0 <= j < wl0.len() && wl0[j].action == action_type && wl0[j].timer_id
                            is Some && wl0[j].timer_id->0 == h;
                    assert(j != k);
                    if j < k {
                        assert(wl0[j].timer_id->0 != wl0[k].timer_id->0);
                    } else {
                        assert(wl0[k].timer_id->0 != wl0[j].timer_id->0);
                    }
                }
            }
        }
        assert forall|a: int, b: int|
            0 <= a < b < wl1.len() && wl1[a].timer_id is Some && wl1[b].timer_id
                is Some implies wl1[a].timer_id->0 != wl1[b].timer_id->0 by {
            let f = |p: ProxyProposal| (p.timer_id, p.id);
            assert(f(wl1[a]) != f(wl1[b]));
            if wl1[a].timer_id == wl1[b].timer_id {
                let k = choose|k: int| 0 <= k < wl0.len() && wl1[a] == wl0[k];
                let j = choose|j: int| 0 <= j < wl0.len() && wl1[b] == wl0[j];
                assert(wl1[a].id != wl1[b].id);
                if k < j {
                    assert(wl0[k].timer_id->0 != wl0[j].timer_id->0);
                } else if j < k {
                    assert(wl0[j].timer_id->0 != wl0[k].timer_id->0);
                }
            }
        }
        if post.fetcher_timer_id is Some {
            let fh = post.fetcher_timer_id->0;
            assert(pre.timers.is_live(fh));
            assert(!evicted_timer_handle(wl0, wl0.len() as int, action_type, fh)) by {
                if evicted_timer_handle(wl0, wl0.len() as int, action_type, fh) {
                    let j = choose|j: int|
                        0 <= j < wl0.len() && wl0[j].action == action_type && wl0[j].timer_id
                            is Some && wl0[j].timer_id->0 == fh;
                    assert(wl0[j].timer_id->0 != pre.fetcher_timer_id->0);
                }
            }
            assert forall|a: int|
                0 <= a < wl1.len() && wl1[a].timer_id is Some implies wl1[a].timer_id->0
                != fh by {
                let k = choose|k: int| 0 <= k < wl0.len() && wl1[a] == wl0[k];
            }
        }
    }
}

impl ProxyState {
    /// Stop watching: cancel every watch-entry timer and the recurring
    /// discovery timer, clear the watchlist, and lower the watch lock.
    /// The history is untouched, so an in-flight vote attempt that later
    /// tries to conclude finds its entry gone and mutates nothing.
    /// Refused while watching is already stopped.
    pub fn stop_timers(&mut self) -> (r: Result<(), CanisterError>)
        requires
            old(self).wf(),
        ensures
            final(self).wf(),
            !old(self).watch_lock ==> (r matches Err(CanisterError::WatchingIsAlreadyStopped)
                && *final(self) == *old(self)),
            old(self).watch_lock ==> (r matches Ok(()) && ({
                let wl0 = old(self).watching_proposals@;
                &&& !final(self).watch_lock
                &&& final(self).watching_proposals@.len() == 0
                &&& final(self).fetcher_timer_id is None
                &&& final(self).proposal_history@ == old(self).proposal_history@
                &&& final(self).timers.next_id == old(self).timers.next_id
                &&& forall|k: int|
                    0 <= k < wl0.len() && wl0[k].timer_id is Some ==> !final(self).timers.is_live(
                        wl0[k].timer_id->0,
                    )
                &&& (old(self).fetcher_timer_id is Some ==> !final(self).timers.is_live(
                    old(self).fetcher_timer_id->0,
                ))
                &&& *final(self) == (ProxyState {
                    watch_lock: false,
                    fetcher_timer_id: None,
                    watching_proposals: final(self).watching_proposals,
                    timers: final(self).timers,
                    ..*old(self)
                })
            })),
    {
        if !self.watch_lock {
            return Err(CanisterError::WatchingIsAlreadyStopped);
        }
        let ghost wl0 = self.watching_proposals@;
        let mut i: usize = 0;
        while i < self.watching_proposals.len()
            invariant
                i <= wl0.len(),
                *self == (ProxyState { timers: self.timers, ..*old(self) }),
                wl0 == self.watching_proposals@,
                self.timers.wf(),
                self.timers.next_id == old(self).timers.next_id,
                forall|k: int|
                    0 <= k < i && wl0[k].timer_id is Some ==> !self.timers.is_live(
                        wl0[k].timer_id->0,
                    ),
                forall|x: u64|
                    !(exists|k: int|
                        0 <= k < i && wl0[k].timer_id is Some && wl0[k].timer_id->0 == x)
                        ==> self.timers.is_live(x) == old(self).timers.is_live(x),
            decreases wl0.len() - i,
        {
            let entry = self.watching_proposals[i];
            if let Some(h) = entry.timer_id {
                self.timers.cancel(h);
            }
            proof {
                assert forall|x: u64|
                    !(exists|k: int|
                        0 <= k < i + 1 && wl0[k].timer_id is Some && wl0[k].timer_id->0 == x)
                        implies self.timers.is_live(x) == old(self).timers.is_live(x) by {
                    assert(!(exists|k: int|
                        0 <= k < i && wl0[k].timer_id is Some && wl0[k].timer_id->0 == x));
                    if wl0[i as int].timer_id is Some {
                        assert(x != wl0[i as int].timer_id->0);
                    }
                }
            }
            i = i + 1;
        }
        self.watching_proposals.clear();
        if let Some(fh) = self.fetcher_timer_id {
            self.timers.cancel(fh);
        }
        self.fetcher_timer_id = None;
        self.watch_lock = false;
        proof {
            assert forall|k: int|
                0 <= k < wl0.len() && wl0[k].timer_id is Some implies !self.timers.is_live(
                wl0[k].timer_id->0,
            ) by {
                if old(self).fetcher_timer_id is Some {
                    assert(wl0[k].timer_id->0 != old(self).fetcher_timer_id->0);
                }
            }
        }
        Ok(())
    }

    /// Start watching: prime the low-water mark with the given proposal,
    /// arm the recurring discovery timer and raise the watch lock. The
    /// returned handle is the discovery timer's; the driver arms the
    /// real recurring timer for it and kicks off a first discovery cycle
    /// at once.
    ///
    /// Refused while the stake identity or either collaborator address
    /// is missing, or while watching is already in progress.
    pub fn watch_proposals(
        &mut self,
        from_proposal: u64,
        from_proposal_action: u64,
        from_proposal_creation_timestamp: u64,
    ) -> (r: Result<u64, CanisterError>)
        requires
            old(self).wf(),
            old(self).timers.next_id < u64::MAX,
        ensures
            final(self).wf(),
            old(self).neuron_id is None ==> (r matches Err(e) && e is Unknown && *final(self)
                == *old(self)),
            old(self).neuron_id is Some && old(self).governance_canister_id@
                == anonymous_principal() ==> (r matches Err(CanisterError::ConfigurationError)
                && *final(self) == *old(self)),
            old(self).neuron_id is Some && old(self).governance_canister_id@
                != anonymous_principal() && old(self).ledger_canister_id@ == anonymous_principal()
                ==> (r matches Err(CanisterError::ConfigurationError) && *final(self) == *old(
                self,
            )),
            old(self).neuron_id is Some && old(self).governance_canister_id@
                != anonymous_principal() && old(self).ledger_canister_id@
                != anonymous_principal() && old(self).watch_lock ==> (r matches Err(
                CanisterError::WatchingIsAlreadyInProgress,
            ) && *final(self) == *old(self)),
            old(self).neuron_id is Some && old(self).governance_canister_id@
                != anonymous_principal() && old(self).ledger_canister_id@
                != anonymous_principal() && !old(self).watch_lock ==> (r matches Ok(h) && ({
                &&& final(self).watch_lock
                &&& final(self).last_proposal == Some(
                    (ProxyProposalQuery {
                        id: from_proposal,
                        action: from_proposal_action,
                        creation_timestamp: from_proposal_creation_timestamp,
                        participation_status: ParticipationStatus::Undecided,
                        timer_scheduled_for: None,
                    }),
                )
                &&& final(self).fetcher_timer_id == Some(h)
                &&& h == old(self).timers.next_id
                &&& !old(self).timers.is_live(h)
                &&& final(self).timers.is_live(h)
                &&& final(self).timers.next_id == old(self).timers.next_id + 1
                &&& forall|x: u64|
                    x != h ==> final(self).timers.is_live(x) == old(self).timers.is_live(x)
                &&& *final(self) == (ProxyState {
                    watch_lock: true,
                    fetcher_timer_id: Some(h),
                    last_proposal: final(self).last_proposal,
                    timers: final(self).timers,
                    ..*old(self)
                })
            })),
    {
        match self.get_neuron() {
            Ok(_) => {},
            Err(e) => {
                return Err(e);
            },
        }
        match self.get_governance_canister_id() {
            Ok(_) => {},
            Err(e) => {
                return Err(e);
            },
        }
        match self.get_ledger_canister_id() {
            Ok(_) => {},
            Err(e) => {
                return Err(e);
            },
        }
        if self.watch_lock {
            return Err(CanisterError::WatchingIsAlreadyInProgress);
        }
        self.last_proposal = Some(ProxyProposalQuery {
            id: from_proposal,
            action: from_proposal_action,
            creation_timestamp: from_proposal_creation_timestamp,
            participation_status: ParticipationStatus::Undecided,
            timer_scheduled_for: None,
        });
        let h = self.timers.arm();
        self.fetcher_timer_id = Some(h);
        self.watch_lock = true;
        proof {
            assert forall|k: int|
                0 <= k < self.watching_proposals@.len() && self.watching_proposals@[k].timer_id
                    is Some implies self.watching_proposals@[k].timer_id->0 != h by {
                let t = self.watching_proposals@[k].timer_id->0;
                assert(old(self).timers.is_live(t));
                assert(t < old(self).timers.next_id);
            }
        }
        Ok(h)
    }
}

} // verus!
