//! The discovery cycle and the vote executor.
//!
//! Discovery pages backward through newly created proposals down to the
//! low-water mark, scheduling each qualifying one on the watchlist with
//! a wake-up shortly before its voting deadline. The vote executor runs
//! when such a wake-up fires: it re-reads the live proposal record,
//! aggregates the council's ballots against the quorum threshold, and
//! concludes the entry into the history. The driver performs the remote
//! calls between these steps and hands their results back in.

use vstd::prelude::*;

use crate::state::{
    anonymous_principal, concluded, hist_has_id, lock_transition, unlocked, wl_has_id, ProxyState,
};
use crate::types::{
    BallotEntry, CanisterError, CouncilMember, LiveProposal, PageRequest, ParticipationStatus,
    ProposalInfo, ProxyProposal, ProxyProposalQuery, VoteStep,
};

verus! {

/// The grace window: a proposal's wake-up fires this many seconds
/// before its voting period ends, so a vote can still be cast.
pub const GRACE_WINDOW_SECONDS: u64 = 3600;

/// A proposal's wake-up deadline: creation time plus voting period,
/// minus the grace window, saturated at both ends of the `u64` range.
pub open spec fn deadline_spec(creation_timestamp: u64, voting_period: u64) -> u64 {
    let sum: int = if creation_timestamp + voting_period <= u64::MAX {
        creation_timestamp + voting_period
    } else {
        u64::MAX as int
    };
    if sum >= GRACE_WINDOW_SECONDS {
        (sum - GRACE_WINDOW_SECONDS) as u64
    } else {
        0u64
    }
}

/// Compute a proposal's wake-up deadline.
pub fn compute_deadline(creation_timestamp: u64, voting_period: u64) -> (deadline: u64)
    ensures
        deadline == deadline_spec(creation_timestamp, voting_period),
{
    let sum: u64 = if voting_period > u64::MAX - creation_timestamp {
        u64::MAX
    } else {
        creation_timestamp + voting_period
    };
    if sum >= GRACE_WINDOW_SECONDS {
        sum - GRACE_WINDOW_SECONDS
    } else {
        0
    }
}

/// The signed value of the first ballot recorded for this voter, if any.
pub open spec fn ballot_lookup(ballots: Seq<BallotEntry>, voter: Seq<char>) -> Option<int>
    decreases ballots.len(),
{
    if ballots.len() == 0 {
        None
    } else if ballots[0].voter@ == voter {
        Some(ballots[0].vote as int)
    } else {
        ballot_lookup(ballots.drop_first(), voter)
    }
}

/// The summed signed ballot values of the council members that voted.
pub open spec fn tally_decision(council: Seq<CouncilMember>, ballots: Seq<BallotEntry>) -> int
    decreases council.len(),
{
    if council.len() == 0 {
        0
    } else {
        tally_decision(council.drop_last(), ballots) + (
        match ballot_lookup(ballots, council.last().neuron_id@) {
            Some(v) => v,
            None => 0,
        })
    }
}

/// How many council members (counted with multiplicity, as stored) have
/// a ballot recorded.
pub open spec fn tally_voters(council: Seq<CouncilMember>, ballots: Seq<BallotEntry>) -> int
    decreases council.len(),
{
    if council.len() == 0 {
        0
    } else {
        tally_voters(council.drop_last(), ballots) + (
        match ballot_lookup(ballots, council.last().neuron_id@) {
            Some(v) => 1int,
            None => 0int,
        })
    }
}

/// The quorum rule. The proxy votes yes exactly when more than half of
/// the council (strictly more than `floor(N/2)` voters) cast a ballot
/// and the summed signed ballots are positive; in every other case —
/// low turnout included — it votes no, the explicit safe default.
pub open spec fn vote_is_yes(council: Seq<CouncilMember>, ballots: Seq<BallotEntry>) -> bool {
    tally_voters(council, ballots) > council.len() / 2 && tally_decision(council, ballots) > 0
}

/// A looked-up ballot value is a single signed 32-bit ballot.
proof fn lemma_lookup_bounds(ballots: Seq<BallotEntry>, voter: Seq<char>)
    ensures
        ballot_lookup(ballots, voter) matches Some(v) ==> -0x8000_0000 <= v < 0x8000_0000,
    decreases ballots.len(),
{
    if ballots.len() > 0 && ballots[0].voter@ != voter {
        lemma_lookup_bounds(ballots.drop_first(), voter);
    }
}

/// The summed ballots of `n` voters lie within `n` times the extreme
/// single ballot values, and at most `n` voters are counted.
proof fn lemma_tally_bounds(council: Seq<CouncilMember>, ballots: Seq<BallotEntry>)
    ensures
        -0x8000_0000 * council.len() <= tally_decision(council, ballots) <= 0x8000_0000
            * council.len(),
        0 <= tally_voters(council, ballots) <= council.len(),
    decreases council.len(),
{
    if council.len() > 0 {
        lemma_tally_bounds(council.drop_last(), ballots);
        lemma_lookup_bounds(ballots, council.last().neuron_id@);
    }
}

/// Look a voter's ballot up, first match first.
fn lookup_ballot(ballots: &Vec<BallotEntry>, voter: &String) -> (r: Option<i32>)
    ensures
        match r {
            Some(v) => ballot_lookup(ballots@, voter@) == Some(v as int),
            None => ballot_lookup(ballots@, voter@) is None,
        },
{
    let mut i: usize = 0;
    proof {
        assert(ballots@.skip(0) =~= ballots@);
    }
    while i < ballots.len()
        invariant
            i <= ballots@.len(),
            ballot_lookup(ballots@, voter@) == ballot_lookup(ballots@.skip(i as int), voter@),
        decreases ballots@.len() - i,
    {
        proof {
            assert(ballots@.skip(i as int).len() > 0);
            assert(ballots@.skip(i as int)[0] == ballots@[i as int]);
            assert(ballots@.skip(i as int).drop_first() =~= ballots@.skip(i + 1 as int));
        }
        if ballots[i].voter == *voter {
            return Some(ballots[i].vote);
        }
        i = i + 1;
    }
    proof {
        assert(ballots@.skip(ballots@.len() as int).len() == 0);
    }
    None
}

/// Aggregate the council's ballots and decide the vote by the quorum
/// rule: yes exactly when turnout exceeds half the council and the
/// summed signed ballots are positive.
pub fn decide_vote(council: &Vec<CouncilMember>, ballots: &Vec<BallotEntry>) -> (yes: bool)
    requires
        council@.len() <= u32::MAX,
    ensures
        yes == vote_is_yes(council@, ballots@),
{
    let mut decision: i64 = 0;
    let mut voters_count: u64 = 0;
    let mut i: usize = 0;
    while i < council.len()
        invariant
            i <= council@.len(),
            council@.len() <= u32::MAX,
            decision == tally_decision(council@.subrange(0, i as int), ballots@),
            voters_count == tally_voters(council@.subrange(0, i as int), ballots@),
            -0x8000_0000 * (i as int) <= decision <= 0x8000_0000 * (i as int),
            voters_count <= i,
        decreases council@.len() - i,
    {
        let ghost pre = council@.subrange(0, i as int);
        proof {
            lemma_tally_bounds(pre, ballots@);
            assert(council@.subrange(0, i + 1 as int).drop_last() =~= pre);
            assert(council@.subrange(0, i + 1 as int).last() == council@[i as int]);
        }
        let member = &council[i];
        match lookup_ballot(ballots, &member.neuron_id) {
            Some(v) => {
                decision = decision + v as i64;
                voters_count = voters_count + 1;
            },
            None => {},
        }
        i = i + 1;
    }
    proof {
        assert(council@.subrange(0, council@.len() as int) =~= council@);
    }
    let voting_threshold: u64 = (council.len() as u64) / 2;
    voters_count > voting_threshold && decision > 0
}

impl ProxyState {
    /// Begin a vote attempt on one watched proposal: check the global
    /// watch lock, then acquire the entry's own lock.
    ///
    /// When watching has been stopped, the attempt aborts with no state
    /// mutation; an attempt already in flight for the same id is refused
    /// with `ProposalLocked`, an unknown id with
    /// `ProposalIsNotInWatchlist`.
    pub fn begin_vote_attempt(&mut self, id: u64) -> (r: Result<(), CanisterError>)
        requires
            old(self).wf(),
        ensures
            final(self).wf(),
            !old(self).watch_lock ==> (r matches Err(CanisterError::WatchingIsAlreadyStopped)
                && *final(self) == *old(self)),
            old(self).watch_lock ==> lock_transition(*old(self), *final(self), id, true, r),
    {
        if !self.watch_lock {
            return Err(CanisterError::WatchingIsAlreadyStopped);
        }
        self.change_proposal_lock(id, true)
    }

    /// Act on the live proposal record the driver re-fetched.
    ///
    /// When its reward event is already present, voting has closed: the
    /// entry is concluded as too late, and no vote is cast. Otherwise
    /// the state is untouched and the returned step asks the driver to
    /// cast the vote the quorum rule decides: 1 (yes) exactly when more
    /// than half the council voted and their summed ballots are
    /// positive, else 0 (no).
    pub fn process_live_proposal(
        &mut self,
        id: u64,
        action: u64,
        creation_timestamp: u64,
        live: &LiveProposal,
    ) -> (step: VoteStep)
        requires
            old(self).wf(),
            old(self).council_members@.len() <= u32::MAX,
        ensures
            final(self).wf(),
            live.reward_event_present ==> (step is TooLate && concluded(
                *old(self),
                *final(self),
                id,
                action,
                creation_timestamp,
                ParticipationStatus::TooLateToParticipate,
            )),
            !live.reward_event_present ==> (*final(self) == *old(self) && step == VoteStep::CastVote(
                if vote_is_yes(old(self).council_members@, live.ballots@) {
                    1i32
                } else {
                    0i32
                },
            )),
    {
        if live.reward_event_present {
            self.move_to_history(
                id,
                action,
                creation_timestamp,
                ParticipationStatus::TooLateToParticipate,
            );
            return VoteStep::TooLate;
        }
        let yes = decide_vote(&self.council_members, &live.ballots);
        if yes {
            VoteStep::CastVote(1)
        } else {
            VoteStep::CastVote(0)
        }
    }

    /// Conclude an entry after the driver successfully cast the vote:
    /// record voted-for when the cast value was 1, voted-against
    /// otherwise. Nothing is mutated when the entry is gone (evicted or
    /// stopped while the cast was in flight).
    pub fn finalize_vote_cast(
        &mut self,
        id: u64,
        action: u64,
        creation_timestamp: u64,
        vote_value: i32,
    ) -> (moved: bool)
        requires
            old(self).wf(),
        ensures
            final(self).wf(),
            moved == wl_has_id(old(self).watching_proposals@, id),
            concluded(
                *old(self),
                *final(self),
                id,
                action,
                creation_timestamp,
                (if vote_value == 1i32 {
                    ParticipationStatus::VotedFor
                } else {
                    ParticipationStatus::VotedAgainst
                }),
            ),
    {
        let status = if vote_value == 1 {
            ParticipationStatus::VotedFor
        } else {
            ParticipationStatus::VotedAgainst
        };
        self.move_to_history(id, action, creation_timestamp, status)
    }
}


impl ProxyState {
    /// Record one failed vote attempt. While attempts remain in the
    /// retry budget, the entry's lock is released so the next attempt
    /// can acquire it, and the caller is told to retry. Once the budget
    /// is exhausted, the entry is concluded as failed-to-vote.
    pub fn record_vote_failure(
        &mut self,
        id: u64,
        action: u64,
        creation_timestamp: u64,
        attempt: u8,
    ) -> (retry: bool)
        requires
            old(self).wf(),
        ensures
            final(self).wf(),
            retry == (attempt < old(self).max_retries),
            retry ==> unlocked(*old(self), *final(self), id),
            !retry ==> concluded(
                *old(self),
                *final(self),
                id,
                action,
                creation_timestamp,
                ParticipationStatus::FailedToVote,
            ),
    {
        if attempt < self.max_retries {
            let r = self.change_proposal_lock(id, false);
            proof {
                assert(unlocked(*old(self), *self, id)) by {
                    if wl_has_id(old(self).watching_proposals@, id) {
                        assert(!(r matches Err(CanisterError::ProposalIsNotInWatchlist)));
                        assert(r matches Ok(()));
                    } else {
                        assert(r matches Err(CanisterError::ProposalIsNotInWatchlist));
                    }
                }
            }
            true
        } else {
            self.move_to_history(id, action, creation_timestamp, ParticipationStatus::FailedToVote);
            false
        }
    }
}

/// Whether a proposal reaches the low-water mark: it is the mark's own
/// proposal, or anything at or before the mark's creation time. The
/// discovery scan stops here — everything at and past this point was
/// already processed by an earlier cycle.
pub open spec fn hits_mark(p: ProposalInfo, mark: ProxyProposalQuery) -> bool {
    p.id == mark.id || p.creation_timestamp <= mark.creation_timestamp
}

/// The title prefix marking a proposal as configuration of the council
/// neuron itself: the ASCII bytes of `CONFIGURE COUNCIL NEURON`. Such
/// proposals are the proxy's own plumbing and are never watched.
pub open spec fn config_title_prefix() -> Seq<u8> {
    seq![
        67u8, 79u8, 78u8, 70u8, 73u8, 71u8, 85u8, 82u8, 69u8, 32u8, 67u8, 79u8, 85u8, 78u8, 67u8, 73u8, 76u8, 32u8, 78u8, 69u8, 85u8, 82u8, 79u8, 78u8,
    ]
}

/// Whether a title starts with the council-configuration prefix.
pub open spec fn is_config_title(title: Seq<u8>) -> bool {
    title.len() >= config_title_prefix().len() && title.subrange(
        0,
        config_title_prefix().len() as int,
    ) == config_title_prefix()
}

/// Whether a title starts with the council-configuration prefix.
pub fn title_is_config(title: &Vec<u8>) -> (r: bool)
    ensures
        r == is_config_title(title@),
{
    let prefix: Vec<u8> = vec![
        67u8, 79u8, 78u8, 70u8, 73u8, 71u8, 85u8, 82u8, 69u8, 32u8, 67u8, 79u8, 85u8, 78u8, 67u8, 73u8, 76u8, 32u8, 78u8, 69u8, 85u8, 82u8, 79u8, 78u8,
    ];
    proof {
        assert(prefix@ =~= config_title_prefix());
    }
    if title.len() < prefix.len() {
        return false;
    }
    let mut i: usize = 0;
    while i < prefix.len()
        invariant
            i <= prefix@.len(),
            prefix@ == config_title_prefix(),
            title@.len() >= prefix@.len(),
            forall|k: int| 0 <= k < i ==> title@[k] == prefix@[k],
        decreases prefix@.len() - i,
    {
        if title[i] != prefix[i] {
            proof {
                assert(title@.subrange(0, prefix@.len() as int)[i as int] == title@[i as int]);
            }
            return false;
        }
        i = i + 1;
    }
    proof {
        assert(title@.subrange(0, prefix@.len() as int) =~= prefix@);
    }
    true
}

/// Whether discovery schedules a proposal: it lies after the mark, is
/// not the proxy's own configuration plumbing, is not already decided,
/// and its wake-up deadline is still in the future.
pub open spec fn schedulable(p: ProposalInfo, mark: ProxyProposalQuery, now: u64) -> bool {
    &&& !hits_mark(p, mark)
    &&& !is_config_title(p.title@)
    &&& !p.reward_event_present
    &&& deadline_spec(p.creation_timestamp, p.voting_period) > now
}

/// No proposal among the first `j` of the page reaches the mark.
pub open spec fn no_stop_before(page: Seq<ProposalInfo>, mark: ProxyProposalQuery, j: int) -> bool {
    forall|k: int| 0 <= k < j ==> !hits_mark(#[trigger] page[k], mark)
}

/// The candidate low-water mark a page proposal offers.
pub open spec fn top_query(p: ProposalInfo) -> ProxyProposalQuery {
    ProxyProposalQuery {
        id: p.id,
        action: p.action,
        creation_timestamp: p.creation_timestamp,
        participation_status: ParticipationStatus::Undecided,
        timer_scheduled_for: None,
    }
}

/// Whether a watch entry is exactly what scheduling one page proposal
/// produces: the proposal's own fields, an undecided status, no lock,
/// an armed timer, and the wake-up aimed at the proposal's deadline.
pub open spec fn entry_matches(e: ProxyProposal, p: ProposalInfo) -> bool {
    &&& e.id == p.id
    &&& e.action == p.action
    &&& e.creation_timestamp == p.creation_timestamp
    &&& e.participation_status == ParticipationStatus::Undecided
    &&& e.lock == false
    &&& e.timer_scheduled_for == Some(deadline_spec(p.creation_timestamp, p.voting_period))
    &&& e.timer_id is Some
}

/// Whether a watch entry was scheduled from some qualifying proposal of
/// this page, seen before any stop point.
pub open spec fn scheduled_from(
    e: ProxyProposal,
    page: Seq<ProposalInfo>,
    mark: ProxyProposalQuery,
    now: u64,
) -> bool {
    exists|j: int|
        0 <= j < page.len() && entry_matches(e, #[trigger] page[j]) && schedulable(
            page[j],
            mark,
            now,
        ) && no_stop_before(page, mark, j)
}

/// The low-water mark does not regress: once one is set, it stays set
/// and its creation time never decreases.
pub open spec fn mark_not_regressed(
    pre: Option<ProxyProposalQuery>,
    post: Option<ProxyProposalQuery>,
) -> bool {
    pre matches Some(q) ==> (post matches Some(q2) && q2.creation_timestamp
        >= q.creation_timestamp)
}

/// What the low-water mark becomes at a cycle's end: the top of the
/// run's first page, unless that would move the mark's creation time
/// backwards, in which case the mark is kept — it never regresses.
pub open spec fn advanced_mark(
    pre: Option<ProxyProposalQuery>,
    top: Option<ProxyProposalQuery>,
) -> Option<ProxyProposalQuery> {
    match top {
        Some(t) => match pre {
            Some(q) => if t.creation_timestamp >= q.creation_timestamp {
                Some(t)
            } else {
                Some(q)
            },
            None => Some(t),
        },
        None => pre,
    }
}

/// One discovery run's transient state, carried between pages: the mark
/// the run stops at, the backward cursor, the top of the first page (the
/// candidate next mark), and whether the run has terminated.
pub struct DiscoveryCycle {
    pub mark: ProxyProposalQuery,
    pub cursor: Option<u64>,
    pub started: bool,
    pub first_page_top: Option<ProxyProposalQuery>,
    pub finished: bool,
}

impl ProxyState {
    /// Begin a discovery run: capture the low-water mark to stop at.
    /// Refused while no mark is primed or the governance address is
    /// unset.
    pub fn start_check_cycle(&self) -> (r: Result<DiscoveryCycle, CanisterError>)
        ensures
            self.last_proposal is None ==> (r matches Err(e) && e is Unknown),
            self.last_proposal is Some && self.governance_canister_id@
                == anonymous_principal() ==> r matches Err(
                CanisterError::ConfigurationError,
            ),
            self.last_proposal is Some && self.governance_canister_id@
                != anonymous_principal() ==> (r matches Ok(c) && ({
                &&& c.mark == self.last_proposal->0
                &&& c.cursor is None
                &&& !c.started
                &&& c.first_page_top is None
                &&& !c.finished
            })),
    {
        let mark = match self.get_last_proposal_id() {
            Ok(q) => q,
            Err(e) => {
                return Err(e);
            },
        };
        match self.get_governance_canister_id() {
            Ok(_) => {},
            Err(e) => {
                return Err(e);
            },
        }
        Ok(DiscoveryCycle { mark, cursor: None, started: false, first_page_top: None, finished: false })
    }

    /// The next page request of a running discovery cycle: at most 100
    /// proposals before the cursor, with the excluded action types
    /// filtered out by the registry itself.
    pub fn next_page_request(&self, cycle: &DiscoveryCycle) -> (req: PageRequest)
        requires
            !cycle.finished,
        ensures
            req.limit == 100u32,
            req.before_proposal == cycle.cursor,
            req.exclude_type@ == self.excluded_action_ids@,
    {
        PageRequest {
            limit: 100,
            before_proposal: cycle.cursor,
            exclude_type: self.get_exclusion_list(),
        }
    }
}


impl ProxyState {
    /// Process one page of proposals, newest first.
    ///
    /// Walking the page in order: a proposal that reaches the mark ends
    /// the cycle — everything at and past it was already processed — and
    /// advances the low-water mark to the top of the run's first page,
    /// unless that would move the mark's creation time backwards.
    /// Council-configuration proposals, proposals already decided, and
    /// proposals whose wake-up deadline has passed are skipped. Every
    /// other proposal not already watched or concluded is scheduled: a
    /// fresh timer is armed and a watch entry inserted. An empty page
    /// also ends the cycle. While the cycle goes on, the cursor moves to
    /// the page's last proposal.
    ///
    /// Discovery writes no history, and the low-water mark's creation
    /// time never decreases.
    pub fn process_page(
        &mut self,
        cycle: &mut DiscoveryCycle,
        page: &Vec<ProposalInfo>,
        now: u64,
    )
        requires
            old(self).wf(),
            !old(cycle).finished,
            old(self).timers.next_id + page@.len() <= u64::MAX,
        ensures
            final(self).wf(),
            final(cycle).mark == old(cycle).mark,
            final(cycle).started,
            final(cycle).first_page_top == (if !old(cycle).started && page@.len() > 0 {
                Some(top_query(page@[0]))
            } else {
                old(cycle).first_page_top
            }),
            final(self).watching_proposals@.len() >= old(self).watching_proposals@.len(),
            final(self).watching_proposals@.subrange(
                0,
                old(self).watching_proposals@.len() as int,
            ) == old(self).watching_proposals@,
            forall|k: int|
                old(self).watching_proposals@.len() <= k < final(self).watching_proposals@.len()
                    ==> scheduled_from(
                    #[trigger] final(self).watching_proposals@[k],
                    page@,
                    old(cycle).mark,
                    now,
                ),
            forall|j: int|
                0 <= j < page@.len() && schedulable(#[trigger] page@[j], old(cycle).mark, now)
                    && no_stop_before(page@, old(cycle).mark, j) ==> wl_has_id(
                    final(self).watching_proposals@,
                    page@[j].id,
                ) || hist_has_id(final(self).proposal_history@, page@[j].id),
            final(self).proposal_history@ == old(self).proposal_history@,
            final(cycle).finished == (page@.len() == 0 || exists|j: int|
                0 <= j < page@.len() && hits_mark(#[trigger] page@[j], old(cycle).mark)),
            !final(cycle).finished ==> final(cycle).cursor == Some(page@[page@.len() - 1].id)
                && final(self).last_proposal == old(self).last_proposal,
            final(cycle).finished ==> final(self).last_proposal == advanced_mark(
                old(self).last_proposal,
                final(cycle).first_page_top,
            ),
            mark_not_regressed(old(self).last_proposal, final(self).last_proposal),
            forall|x: u64| old(self).timers.is_live(x) ==> final(self).timers.is_live(x),
            final(self).timers.next_id <= old(self).timers.next_id + page@.len(),
            *final(self) == (ProxyState {
                watching_proposals: final(self).watching_proposals,
                last_proposal: final(self).last_proposal,
                timers: final(self).timers,
                ..*old(self)
            }),
    {
        let ghost mark0 = cycle.mark;
        let ghost wl0 = self.watching_proposals@;
        let ghost hist0 = self.proposal_history@;
        if !cycle.started {
            cycle.started = true;
            if page.len() > 0 {
                let p0 = &page[0];
                cycle.first_page_top = Some(ProxyProposalQuery {
                    id: p0.id,
                    action: p0.action,
                    creation_timestamp: p0.creation_timestamp,
                    participation_status: ParticipationStatus::Undecided,
                    timer_scheduled_for: None,
                });
            }
        }
        let ghost fpt = cycle.first_page_top;
        let mut j: usize = 0;
        let mut stopped = false;
        while j < page.len() && !stopped
            invariant
                j <= page@.len(),
                cycle.mark == mark0,
                cycle.started,
                cycle.first_page_top == fpt,
                !cycle.finished,
                cycle.cursor == old(cycle).cursor,
                old(self).timers.next_id + page@.len() <= u64::MAX,
                self.wf(),
                *self == (ProxyState {
                    watching_proposals: self.watching_proposals,
                    timers: self.timers,
                    ..*old(self)
                }),
                self.proposal_history@ == hist0,
                self.watching_proposals@.len() >= wl0.len(),
                self.watching_proposals@.subrange(0, wl0.len() as int) == wl0,
                forall|k: int|
                    wl0.len() <= k < self.watching_proposals@.len() ==> scheduled_from(
                        #[trigger] self.watching_proposals@[k],
                        page@,
                        mark0,
                        now,
                    ),
                forall|jj: int|
                    0 <= jj < j && schedulable(#[trigger] page@[jj], mark0, now) ==> wl_has_id(
                        self.watching_proposals@,
                        page@[jj].id,
                    ) || hist_has_id(hist0, page@[jj].id),
                !stopped ==> no_stop_before(page@, mark0, j as int),
                stopped ==> (j < page@.len() && hits_mark(page@[j as int], mark0)
                    && no_stop_before(page@, mark0, j as int)),
                forall|x: u64| old(self).timers.is_live(x) ==> self.timers.is_live(x),
                self.timers.next_id <= old(self).timers.next_id + j,
                old(self).timers.next_id <= self.timers.next_id,
            decreases page@.len() - j + (if stopped { 0int } else { 1int }),
        {
            let p = &page[j];
            if p.id == cycle.mark.id || p.creation_timestamp <= cycle.mark.creation_timestamp {
                stopped = true;
            } else {
                let deadline = compute_deadline(p.creation_timestamp, p.voting_period);
                let in_wl = self.find_watch_index(p.id).is_some();
                let in_hist = self.find_history_index(p.id).is_some();
                proof {
                    if in_wl {
                        assert(wl_has_id(self.watching_proposals@, p.id));
                    }
                    if in_hist {
                        assert(hist_has_id(self.proposal_history@, p.id));
                    }
                }
                let known = in_wl || in_hist;
                if !title_is_config(&p.title) && !p.reward_event_present && deadline > now
                    && !known {
                    let ghost wl_pre = self.watching_proposals@;
                    let h = self.timers.arm();
                    proof {
                        assert forall|k: int|
                            0 <= k < wl_pre.len() && wl_pre[k].timer_id is Some implies wl_pre[
                            k
                        ].timer_id->0 != h by {
                            assert(old(self).timers.is_live(wl_pre[k].timer_id->0)
                                || self.timers.is_live(wl_pre[k].timer_id->0));
                            assert(wl_pre[k].timer_id->0 < h || self.timers.is_live(
                                wl_pre[k].timer_id->0,
                            ));
                        }
                    }
                    let entry = ProxyProposal {
                        id: p.id,
                        action: p.action,
                        creation_timestamp: p.creation_timestamp,
                        timer_id: Some(h),
                        participation_status: ParticipationStatus::Undecided,
                        lock: false,
                        timer_scheduled_for: Some(deadline),
                    };
                    self.watching_proposals.push(entry);
                    proof {
                        let wl_new = self.watching_proposals@;
                        assert(wl_new.subrange(0, wl0.len() as int) =~= wl_pre.subrange(
                            0,
                            wl0.len() as int,
                        ));
                        assert(entry_matches(entry, page@[j as int]));
                        assert(schedulable(page@[j as int], mark0, now));
                        assert(scheduled_from(entry, page@, mark0, now));
                        assert forall|k: int|
                            wl0.len() <= k < wl_new.len() implies scheduled_from(
                            #[trigger] wl_new[k],
                            page@,
                            mark0,
                            now,
                        ) by {
                            if k < wl_pre.len() {
                                assert(wl_new[k] == wl_pre[k]);
                            } else {
                                assert(wl_new[k] == entry);
                            }
                        }
                        assert forall|x: u64|
                            wl_has_id(wl_pre, x) implies wl_has_id(wl_new, x) by {
                            let ki = choose|ki: int| 0 <= ki < wl_pre.len() && wl_pre[ki].id == x;
                            assert(wl_new[ki].id == x);
                        }
                        assert(wl_new[wl_new.len() - 1] == entry);
                        assert(wl_has_id(wl_new, page@[j as int].id));
                        lemma_schedule_preserves_wf(*self, wl_pre, entry, h);
                    }
                }
                j = j + 1;
            }
        }
        if stopped || page.len() == 0 {
            cycle.finished = true;
            cycle.cursor = None;
            match cycle.first_page_top {
                Some(t) => {
                    let advance = match &self.last_proposal {
                        None => true,
                        Some(q) => t.creation_timestamp >= q.creation_timestamp,
                    };
                    if advance {
                        self.last_proposal = Some(t);
                    }
                },
                None => {},
            }
        } else {
            cycle.cursor = Some(page[page.len() - 1].id);
        }
        proof {
            if !stopped && page@.len() > 0 {
                assert(no_stop_before(page@, mark0, page@.len() as int));
                assert forall|jj: int|
                    0 <= jj < page@.len() implies !hits_mark(#[trigger] page@[jj], mark0) by {}
            }
        }
    }
}

/// Appending a freshly scheduled entry — an unseen id with a newly
/// armed, therefore distinct, timer handle — preserves well-formedness.
proof fn lemma_schedule_preserves_wf(
    post: ProxyState,
    wl_pre: Seq<ProxyProposal>,
    entry: ProxyProposal,
    h: u64,
)
    requires
        post.watching_proposals@ == wl_pre.push(entry),
        entry.timer_id == Some(h),
        post.timers.wf(),
        post.timers.is_live(h),
        forall|i: int, j: int| 0 <= i < j < wl_pre.len() ==> wl_pre[i].id != wl_pre[j].id,
        forall|i: int, j: int|
            0 <= i < wl_pre.len() && 0 <= j < post.proposal_history@.len() ==> wl_pre[i].id
                != post.proposal_history@[j].id,
        post.hist_ids_unique(),
        post.hist_terminal(),
        forall|i: int|
            0 <= i < wl_pre.len() && wl_pre[i].timer_id is Some ==> post.timers.is_live(
                wl_pre[i].timer_id->0,
            ),
        forall|i: int, j: int|
            0 <= i < j < wl_pre.len() && wl_pre[i].timer_id is Some && wl_pre[j].timer_id
                is Some ==> wl_pre[i].timer_id->0 != wl_pre[j].timer_id->0,
        forall|i: int| 0 <= i < wl_pre.len() ==> wl_pre[i].id != entry.id,
        forall|i: int|
            0 <= i < wl_pre.len() && wl_pre[i].timer_id is Some ==> wl_pre[i].timer_id->0 != h,
        forall|j: int| 0 <= j < post.proposal_history@.len() ==> entry.id
            != post.proposal_history@[j].id,
        post.fetcher_timer_id is Some ==> post.timers.is_live(post.fetcher_timer_id->0),
        post.fetcher_timer_id is Some ==> post.fetcher_timer_id->0 != h,
        forall|i: int|
            0 <= i < wl_pre.len() && wl_pre[i].timer_id is Some && post.fetcher_timer_id
                is Some ==> wl_pre[i].timer_id->0 != post.fetcher_timer_id->0,
    ensures
        post.wf(),
{
    let wl1 = post.watching_proposals@;
    assert forall|i: int, j: int| 0 <= i < j < wl1.len() implies wl1[i].id != wl1[j].id by {
        if j < wl_pre.len() {
            assert(wl1[i] == wl_pre[i] && wl1[j] == wl_pre[j]);
        } else {
            assert(wl1[i] == wl_pre[i] && wl1[j] == entry);
        }
    }
    assert forall|i: int, j: int|
        0 <= i < wl1.len() && 0 <= j < post.proposal_history@.len() implies wl1[i].id
        != post.proposal_history@[j].id by {
        if i < wl_pre.len() {
            assert(wl1[i] == wl_pre[i]);
        } else {
            assert(wl1[i] == entry);
        }
    }
    assert forall|i: int|
        0 <= i < wl1.len() && wl1[i].timer_id is Some implies post.timers.is_live(
        wl1[i].timer_id->0,
    ) by {
        if i < wl_pre.len() {
            assert(wl1[i] == wl_pre[i]);
        } else {
            assert(wl1[i] == entry);
        }
    }
    assert forall|i: int, j: int|
        0 <= i < j < wl1.len() && wl1[i].timer_id is Some && wl1[j].timer_id is Some implies wl1[
        i
    ].timer_id->0 != wl1[j].timer_id->0 by {
        if j < wl_pre.len() {
            assert(wl1[i] == wl_pre[i] && wl1[j] == wl_pre[j]);
        } else {
            assert(wl1[i] == wl_pre[i] && wl1[j] == entry);
        }
    }
    if post.fetcher_timer_id is Some {
        assert forall|i: int|
            0 <= i < wl1.len() && wl1[i].timer_id is Some implies wl1[i].timer_id->0
            != post.fetcher_timer_id->0 by {
            if i < wl_pre.len() {
                assert(wl1[i] == wl_pre[i]);
            } else {
                assert(wl1[i] == entry);
            }
        }
    }
}

} // verus!
