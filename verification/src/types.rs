//! Data model of the proxy engine: council members, watched proposals,
//! history records, and the errors its operations report.

use vstd::prelude::*;

verus! {

/// A member of the operator council whose ballot the proxy aggregates.
///
/// `neuron_id` is the member's identifier in the remote governance
/// registry, the key under which the member's ballot appears in a live
/// proposal record. Uniqueness of `neuron_id` across the council is not
/// enforced; a duplicated entry is counted once per occurrence by the
/// ballot aggregation, exactly as it is stored.
#[derive(Clone)]
pub struct CouncilMember {
    pub name: String,
    pub neuron_id: String,
}

impl CouncilMember {
    /// A copy that provably keeps both fields.
    pub fn duplicate(&self) -> (c: CouncilMember)
        ensures
            c == *self,
    {
        let c = CouncilMember { name: self.name.clone(), neuron_id: self.neuron_id.clone() };
        proof {
            assert(c.name == self.name && c.neuron_id == self.neuron_id);
        }
        c
    }
}

/// The errors the engine's operations report.
#[derive(Clone, Debug)]
pub enum CanisterError {
    /// A remote call failed or returned something unusable; the message
    /// carries what is known.
    Unknown(String),
    /// The caller is not the recognized administrator.
    Unauthorized,
    /// A required collaborator address (governance or ledger) is not set.
    ConfigurationError,
    /// The proxy's own stake identity is already recorded; the bootstrap
    /// sequence must not run twice.
    NeuronAlreadySet,
    /// Watching is already enabled.
    WatchingIsAlreadyInProgress,
    /// Watching is already disabled.
    WatchingIsAlreadyStopped,
    /// The proposal id is not on the watchlist.
    ProposalIsNotInWatchlist,
    /// The proposal's watch entry is locked by an in-flight vote attempt.
    ProposalLocked,
}

/// How the proxy's participation in one proposal concluded.
///
/// `Undecided` is the only non-terminal status: it marks an entry still
/// on the watchlist. Every history record carries one of the four
/// terminal statuses.
#[derive(Clone, Copy, Debug, PartialEq, Eq, Structural)]
pub enum ParticipationStatus {
    Undecided,
    TooLateToParticipate,
    VotedFor,
    VotedAgainst,
    FailedToVote,
}

impl ParticipationStatus {
    /// A status is terminal when it records a concluded participation.
    pub open spec fn is_terminal(self) -> bool {
        self != ParticipationStatus::Undecided
    }
}

/// A proposal currently being watched: scheduled for a vote shortly
/// before its deadline.
///
/// `timer_id` is the handle of the one-shot wake-up armed for it;
/// `timer_scheduled_for` the absolute time that wake-up aims at; `lock`
/// is true exactly while a vote attempt on this entry is in flight.
#[derive(Clone, Copy)]
pub struct ProxyProposal {
    pub id: u64,
    pub action: u64,
    pub creation_timestamp: u64,
    pub timer_id: Option<u64>,
    pub participation_status: ParticipationStatus,
    pub lock: bool,
    pub timer_scheduled_for: Option<u64>,
}

/// The outward view of a proposal the proxy knows about: a watchlist
/// entry stripped of its timer handle and lock, or a history record.
#[derive(Clone, Copy)]
pub struct ProxyProposalQuery {
    pub id: u64,
    pub action: u64,
    pub creation_timestamp: u64,
    pub participation_status: ParticipationStatus,
    pub timer_scheduled_for: Option<u64>,
}

/// The outward view of a watchlist entry.
pub open spec fn query_of(p: ProxyProposal) -> ProxyProposalQuery {
    ProxyProposalQuery {
        id: p.id,
        action: p.action,
        creation_timestamp: p.creation_timestamp,
        participation_status: p.participation_status,
        timer_scheduled_for: p.timer_scheduled_for,
    }
}

impl ProxyProposal {
    /// The outward view of this entry.
    pub fn to_query(&self) -> (q: ProxyProposalQuery)
        ensures
            q == query_of(*self),
    {
        ProxyProposalQuery {
            id: self.id,
            action: self.action,
            creation_timestamp: self.creation_timestamp,
            participation_status: self.participation_status,
            timer_scheduled_for: self.timer_scheduled_for,
        }
    }
}

/// One proposal as a discovery page reports it: the fields of the remote
/// record that the engine's decisions read, as plain values.
#[derive(Clone)]
pub struct ProposalInfo {
    pub id: u64,
    pub action: u64,
    pub creation_timestamp: u64,
    /// Length of the proposal's initial voting period, in seconds.
    pub voting_period: u64,
    /// True when the remote record carries a reward-distribution
    /// timestamp: voting on it is already decided and closed.
    pub reward_event_present: bool,
    /// The proposal's title, as bytes.
    pub title: Vec<u8>,
}

/// One recorded ballot of a live proposal: the voter's identifier in the
/// governance registry and the signed vote value.
#[derive(Clone)]
pub struct BallotEntry {
    pub voter: String,
    pub vote: i32,
}

/// The live record of one proposal, re-fetched at vote time: the fields
/// the vote executor reads.
pub struct LiveProposal {
    /// True when voting on the proposal has already closed.
    pub reward_event_present: bool,
    pub ballots: Vec<BallotEntry>,
}

/// What the vote executor decided after inspecting a live record.
pub enum VoteStep {
    /// Voting had already closed; the entry was finalized as too late.
    TooLate,
    /// Cast this vote value (1 for yes, 0 for no) with the governance
    /// registry, then finalize with `finalize_vote_cast`.
    CastVote(i32),
}

/// The ledger transfer the bootstrap sequence asks the driver to make:
/// move `amount` tokens to the staking subaccount `to_subaccount` under
/// the governance registry's account `to_owner`, tagged with `memo`.
pub struct TransferPlan {
    pub to_owner: Vec<u8>,
    pub to_subaccount: Vec<u8>,
    pub memo: u64,
    pub amount: u64,
}

/// The neuron-configuration command that extends the stake's dissolve
/// delay.
pub struct ConfigurePlan {
    pub neuron_subaccount: Vec<u8>,
    pub additional_dissolve_delay_seconds: u32,
}

/// The vote-casting command the vote executor asks the driver to send.
pub struct RegisterVotePlan {
    pub neuron_subaccount: Vec<u8>,
    pub proposal_id: u64,
    pub vote: i32,
}

/// One page request of the discovery cycle: ask the governance registry
/// for at most `limit` proposals created before `before_proposal`
/// (exclusive; newest first), with `exclude_type` filtered out
/// server-side.
pub struct PageRequest {
    pub limit: u32,
    pub before_proposal: Option<u64>,
    pub exclude_type: Vec<u64>,
}

} // verus!
