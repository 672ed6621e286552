use crate::math::{below_percentage, below_share, exceeds_percentage, exceeds_share};
use crate::proposal::{GovernanceProposal, GovernanceProposalStatus};
use vstd::prelude::*;

verus! {

/// The four ways to vote.
#[derive(Clone, Copy, Debug, PartialEq, Eq, Structural)]
pub enum VoteType {
    UpVote,
    DownVote,
    DownVetoVote,
    AbstainVote,
}

/// The tally of one proposal: voting power per kind of vote, and the raw
/// energy of all who voted.
#[derive(Clone, Copy, Debug, PartialEq, Eq, Structural)]
pub struct ProposalVotes {
    pub up_votes: u128,
    pub down_votes: u128,
    pub down_veto_votes: u128,
    pub abstain_votes: u128,
    pub quorum: u128,
}

impl Default for ProposalVotes {
    /// The tally before anyone has voted.
    fn default() -> (votes: ProposalVotes)
        ensures
            votes == (ProposalVotes {
                up_votes: 0,
                down_votes: 0,
                down_veto_votes: 0,
                abstain_votes: 0,
                quorum: 0,
            }),
    {
        ProposalVotes { up_votes: 0, down_votes: 0, down_veto_votes: 0, abstain_votes: 0, quorum: 0 }
    }
}

impl ProposalVotes {
    /// All voting power cast, whatever the kind.
    pub open spec fn total_votes(&self) -> nat {
        (self.up_votes + self.down_votes + self.down_veto_votes + self.abstain_votes) as nat
    }

    /// The power cast never exceeds the energy behind it.
    pub open spec fn wf(&self) -> bool {
        self.total_votes() <= self.quorum
    }

    /// The tally after one more vote of `power`, backed by `energy`.
    pub open spec fn with_vote(self, vote: VoteType, power: u128, energy: u128) -> ProposalVotes {
        let quorum = (self.quorum + energy) as u128;
        match vote {
            VoteType::UpVote => ProposalVotes {
                up_votes: (self.up_votes + power) as u128,
                quorum,
                ..self
            },
            VoteType::DownVote => ProposalVotes {
                down_votes: (self.down_votes + power) as u128,
                quorum,
                ..self
            },
            VoteType::DownVetoVote => ProposalVotes {
                down_veto_votes: (self.down_veto_votes + power) as u128,
                quorum,
                ..self
            },
            VoteType::AbstainVote => ProposalVotes {
                abstain_votes: (self.abstain_votes + power) as u128,
                quorum,
                ..self
            },
        }
    }

    /// The tally before anyone has voted.
    pub fn new() -> (votes: ProposalVotes)
        ensures
            votes == (ProposalVotes {
                up_votes: 0,
                down_votes: 0,
                down_veto_votes: 0,
                abstain_votes: 0,
                quorum: 0,
            }),
            votes.wf(),
    {
        ProposalVotes { up_votes: 0, down_votes: 0, down_veto_votes: 0, abstain_votes: 0, quorum: 0 }
    }

    /// Whether the power cast stays within the energy behind it.
    pub fn is_well_formed(&self) -> (ok: bool)
        ensures
            ok == self.wf(),
    {
        if self.up_votes > self.quorum {
            return false;
        }
        let below_up: u128 = self.quorum - self.up_votes;
        if self.down_votes > below_up {
            return false;
        }
        let below_down: u128 = below_up - self.down_votes;
        if self.down_veto_votes > below_down {
            return false;
        }
        self.abstain_votes <= below_down - self.down_veto_votes
    }

    /// All voting power cast, whatever the kind.
    pub fn get_total_votes(&self) -> (total: u128)
        requires
            self.wf(),
        ensures
            total == self.total_votes(),
    {
        self.up_votes + self.down_votes + self.down_veto_votes + self.abstain_votes
    }

    /// Adds one vote of `power`, backed by `energy`, to the bucket of its kind
    /// and the energy to the quorum.
    pub fn add_vote(&mut self, vote: VoteType, power: u128, energy: u128)
        requires
            old(self).wf(),
            power <= energy,
            old(self).quorum + energy <= u128::MAX,
        ensures
            *final(self) == old(self).with_vote(vote, power, energy),
            final(self).wf(),
            final(self).quorum == old(self).quorum + energy,
            final(self).total_votes() == old(self).total_votes() + power,
    {
        match vote {
            VoteType::UpVote => {
                self.up_votes = self.up_votes + power;
            },
            VoteType::DownVote => {
                self.down_votes = self.down_votes + power;
            },
            VoteType::DownVetoVote => {
                self.down_veto_votes = self.down_veto_votes + power;
            },
            VoteType::AbstainVote => {
                self.abstain_votes = self.abstain_votes + power;
            },
        }
        self.quorum = self.quorum + energy;
    }
}

/// What a proposal comes to once its voting period is over. A dominant veto
/// defeats it whatever else holds; then a missed quorum defeats it; then it
/// succeeds exactly if the up-votes outnumber the down-votes.
pub open spec fn outcome(proposal: &GovernanceProposal, votes: &ProposalVotes)
    -> GovernanceProposalStatus {
    if exceeds_share(
        votes.down_veto_votes as nat,
        proposal.veto_threshold_percentage as nat,
        votes.total_votes(),
    ) {
        GovernanceProposalStatus::DefeatedWithVeto
    } else if below_share(
        votes.quorum as nat,
        proposal.minimum_quorum as nat,
        proposal.total_energy as nat,
    ) {
        GovernanceProposalStatus::Defeated
    } else if votes.up_votes > votes.down_votes {
        GovernanceProposalStatus::Succeeded
    } else {
        GovernanceProposalStatus::Defeated
    }
}

/// The status of a stored proposal at block `height`: a function of the
/// height, of what was written at creation and of the tally, and of nothing
/// else.
pub open spec fn status_at(
    proposal: &GovernanceProposal,
    votes: &ProposalVotes,
    start_block: u64,
    height: u64,
) -> GovernanceProposalStatus {
    if height < proposal.voting_start(start_block) {
        GovernanceProposalStatus::Pending
    } else if height < proposal.voting_end(start_block) {
        GovernanceProposalStatus::Active
    } else {
        outcome(proposal, votes)
    }
}

/// Resolves what a proposal has come to after its voting period.
pub fn resolve_outcome(proposal: &GovernanceProposal, votes: &ProposalVotes) -> (status:
    GovernanceProposalStatus)
    requires
        proposal.wf(),
        votes.wf(),
    ensures
        status == outcome(proposal, votes),
{
    let total = votes.get_total_votes();
    if exceeds_percentage(votes.down_veto_votes, proposal.veto_threshold_percentage, total) {
        GovernanceProposalStatus::DefeatedWithVeto
    } else if below_percentage(votes.quorum, proposal.minimum_quorum, proposal.total_energy) {
        GovernanceProposalStatus::Defeated
    } else if votes.up_votes > votes.down_votes {
        GovernanceProposalStatus::Succeeded
    } else {
        GovernanceProposalStatus::Defeated
    }
}

/// Resolves the status of a stored proposal at block `height`.
pub fn resolve_status(
    proposal: &GovernanceProposal,
    votes: &ProposalVotes,
    start_block: u64,
    height: u64,
) -> (status: GovernanceProposalStatus)
    requires
        proposal.wf(),
        votes.wf(),
    ensures
        status == status_at(proposal, votes, start_block, height),
{
    let voting_start: u128 = start_block as u128 + proposal.voting_delay_in_blocks as u128;
    let voting_end: u128 = voting_start + proposal.voting_period_in_blocks as u128;
    if (height as u128) < voting_start {
        GovernanceProposalStatus::Pending
    } else if (height as u128) < voting_end {
        GovernanceProposalStatus::Active
    } else {
        resolve_outcome(proposal, votes)
    }
}

} // verus!
