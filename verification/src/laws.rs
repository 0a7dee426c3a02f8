//! The engine's global laws, stated over the well-formedness invariant
//! that every transition of `ProxyState` preserves.

use vstd::prelude::*;

use crate::proposals::mark_not_regressed;
use crate::state::{concluded, hist_has_id, wl_has_id, ProxyState};
use crate::types::{ParticipationStatus, ProxyProposalQuery};

verus! {

/// No proposal id is ever present in both the watchlist and the
/// history: every reachable state keeps the two registries disjoint.
pub proof fn lemma_no_id_in_watchlist_and_history(s: ProxyState, id: u64)
    requires
        s.wf(),
    ensures
        !(wl_has_id(s.watching_proposals@, id) && hist_has_id(s.proposal_history@, id)),
{
    if wl_has_id(s.watching_proposals@, id) && hist_has_id(s.proposal_history@, id) {
        let i = choose|i: int|
            0 <= i < s.watching_proposals@.len() && s.watching_proposals@[i].id == id;
        let j = choose|j: int|
            0 <= j < s.proposal_history@.len() && s.proposal_history@[j].id == id;
        assert(s.watching_proposals@[i].id != s.proposal_history@[j].id);
    }
}

/// Every proposal that reaches the history is there exactly once, under
/// exactly one terminal participation status: ids are pairwise distinct
/// and no record is undecided.
pub proof fn lemma_history_once_and_terminal(s: ProxyState)
    requires
        s.wf(),
    ensures
        forall|i: int, j: int|
            0 <= i < j < s.proposal_history@.len() ==> s.proposal_history@[i].id
                != s.proposal_history@[j].id,
        forall|i: int|
            0 <= i < s.proposal_history@.len()
                ==> s.proposal_history@[i].participation_status.is_terminal(),
{
}

/// Concluding a proposal whose entry is gone — evicted, or cleared by a
/// stop while the vote attempt was in flight — mutates nothing: no
/// history record is written, none is duplicated.
pub proof fn lemma_conclusion_of_absent_entry_is_noop(
    pre: ProxyState,
    post: ProxyState,
    id: u64,
    action: u64,
    creation_timestamp: u64,
    status: ParticipationStatus,
)
    requires
        concluded(pre, post, id, action, creation_timestamp, status),
        !wl_has_id(pre.watching_proposals@, id),
    ensures
        post == pre,
{
}

/// The low-water mark's creation time is non-decreasing across any
/// sequence of discovery steps: each page transition is monotone (an
/// ensures of `process_page`), and monotone steps compose.
pub proof fn lemma_mark_monotonicity_composes(
    a: Option<ProxyProposalQuery>,
    b: Option<ProxyProposalQuery>,
    c: Option<ProxyProposalQuery>,
)
    requires
        mark_not_regressed(a, b),
        mark_not_regressed(b, c),
    ensures
        mark_not_regressed(a, c),
{
}

} // verus!
