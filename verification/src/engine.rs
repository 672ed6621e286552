use crate::bytes::{all_distinct, bytes_eq, contains_bytes, distinct_bytes};
use crate::math::{percentage_floor, percentage_of, FULL_PERCENTAGE};
use crate::power::{is_integer_sqrt, voting_power};
use crate::proposal::{
    all_actions_fit, checked_total_gas, each_action_fits, gas_sum, GovernanceAction, GovernanceProposal,
    GovernanceProposalStatus, ProposalId, TokenPayment, MAX_GAS_LIMIT_PER_BLOCK,
    MAX_GOVERNANCE_PROPOSAL_ACTIONS,
};
use crate::votes::{resolve_status, status_at, ProposalVotes, VoteType};
use vstd::prelude::*;

verus! {

/// Why the engine turned a call down. A call that is turned down changes
/// nothing.
#[derive(Clone, Copy, Debug, PartialEq, Eq, Structural)]
pub enum GovernanceError {
    /// A percentage handed to `init` lies above the whole.
    InvalidPercentage,
    /// The caller is the contract itself.
    CallerIsContract,
    /// The proposal carries no action.
    NoActions,
    /// The proposal carries more actions than allowed.
    TooManyActions,
    /// The proposer's energy is zero or below the configured minimum.
    NotEnoughEnergy,
    /// The fee is paid in another token than the configured one.
    WrongTokenId,
    /// The fee differs from the configured amount.
    NotEnoughFee,
    /// One action alone asks for the gas of a block or more.
    ActionGasTooHigh,
    /// The actions together ask for the gas of a block or more.
    TooMuchGas,
    /// No proposal is stored under the id.
    ProposalNotFound,
    /// Votes are taken only while the proposal is active.
    ProposalNotActive,
    /// The caller has voted on this proposal before.
    AlreadyVoted,
    /// The energy of all voters together no longer fits in 128 bits.
    EnergyOverflow,
    /// Only the proposer may cancel or withdraw.
    NotProposer,
    /// Only a pending proposal may be cancelled.
    CannotCancel,
    /// The fee may be withdrawn only once the voting is over.
    CannotWithdraw,
}

impl GovernanceError {
    /// The error in words.
    pub open spec fn text(self) -> Seq<char> {
        match self {
            GovernanceError::InvalidPercentage => "Percentage exceeds the whole"@,
            GovernanceError::CallerIsContract => "Cannot call this endpoint from the contract itself"@,
            GovernanceError::NoActions => "Proposal has no actions"@,
            GovernanceError::TooManyActions => "Exceeded max actions per proposal"@,
            GovernanceError::NotEnoughEnergy => "Not enough energy for the proposal"@,
            GovernanceError::WrongTokenId => "Wrong payment token id for creating the proposal"@,
            GovernanceError::NotEnoughFee => "Fee does not match the fee for creating a proposal"@,
            GovernanceError::ActionGasTooHigh => "A single action cannot use more than the max gas limit per block"@,
            GovernanceError::TooMuchGas => "Actions require too much gas to be executed"@,
            GovernanceError::ProposalNotFound => "Proposal does not exist"@,
            GovernanceError::ProposalNotActive => "Proposal is not active"@,
            GovernanceError::AlreadyVoted => "Already voted for this proposal"@,
            GovernanceError::EnergyOverflow => "Energy of the voters exceeds what can be counted"@,
            GovernanceError::NotProposer => "Only original proposer may cancel a pending proposal"@,
            GovernanceError::CannotCancel => "Action may not be cancelled"@,
            GovernanceError::CannotWithdraw => "You may not withdraw funds from this proposal!"@,
        }
    }

    /// The error in words, as the caller gets to read it.
    pub fn message(&self) -> (text: &'static str)
        ensures
            text@ == self.text(),
    {
        match self {
            GovernanceError::InvalidPercentage => "Percentage exceeds the whole",
            GovernanceError::CallerIsContract => "Cannot call this endpoint from the contract itself",
            GovernanceError::NoActions => "Proposal has no actions",
            GovernanceError::TooManyActions => "Exceeded max actions per proposal",
            GovernanceError::NotEnoughEnergy => "Not enough energy for the proposal",
            GovernanceError::WrongTokenId => "Wrong payment token id for creating the proposal",
            GovernanceError::NotEnoughFee => "Fee does not match the fee for creating a proposal",
            GovernanceError::ActionGasTooHigh => "A single action cannot use more than the max gas limit per block",
            GovernanceError::TooMuchGas => "Actions require too much gas to be executed",
            GovernanceError::ProposalNotFound => "Proposal does not exist",
            GovernanceError::ProposalNotActive => "Proposal is not active",
            GovernanceError::AlreadyVoted => "Already voted for this proposal",
            GovernanceError::EnergyOverflow => "Energy of the voters exceeds what can be counted",
            GovernanceError::NotProposer => "Only original proposer may cancel a pending proposal",
            GovernanceError::CannotCancel => "Action may not be cancelled",
            GovernanceError::CannotWithdraw => "You may not withdraw funds from this proposal!",
        }
    }
}

/// What the owner configures; each new proposal takes a copy of the voting
/// parameters, so later changes leave running proposals alone.
#[derive(Clone, Debug)]
pub struct GovernanceConfig {
    pub min_energy_for_propose: u128,
    pub min_fee_for_propose: u128,
    pub fee_token_id: Vec<u8>,
    pub quorum_percentage: u64,
    pub voting_delay_in_blocks: u64,
    pub voting_period_in_blocks: u64,
    pub withdraw_percentage_defeated: u64,
    pub veto_threshold_percentage: u64,
    pub energy_factory_address: Vec<u8>,
    pub fees_collector_address: Vec<u8>,
}

impl GovernanceConfig {
    /// No percentage lies above the whole.
    pub open spec fn wf(&self) -> bool {
        &&& self.quorum_percentage <= FULL_PERCENTAGE
        &&& self.withdraw_percentage_defeated <= FULL_PERCENTAGE
        &&& self.veto_threshold_percentage <= FULL_PERCENTAGE
    }
}

/// All that the engine keeps of one proposal.
#[derive(Clone, Debug)]
pub struct ProposalRecord {
    pub proposal: GovernanceProposal,
    pub votes: ProposalVotes,
    pub voters: Vec<Vec<u8>>,
    pub start_block: u64,
}

/// `address` occurs among `voters`.
pub open spec fn is_voter(voters: Seq<Vec<u8>>, address: Seq<u8>) -> bool {
    exists|j: int| 0 <= j < voters.len() && #[trigger] voters[j]@ == address
}

impl ProposalRecord {
    /// The proposal and its tally are well formed, and no address occurs
    /// twice among the voters.
    pub open spec fn wf(&self) -> bool {
        &&& self.proposal.wf()
        &&& self.votes.wf()
        &&& distinct_bytes(self.voters@)
    }

    /// Whether the record is well formed.
    pub fn is_well_formed(&self) -> (ok: bool)
        ensures
            ok == self.wf(),
    {
        self.proposal.is_well_formed() && self.votes.is_well_formed() && all_distinct(&self.voters)
    }
}

/// An order to the escrow: send `amount` of the token to `to`.
#[derive(Clone, Debug)]
pub struct Transfer {
    pub to: Vec<u8>,
    pub token_identifier: Vec<u8>,
    pub token_nonce: u64,
    pub amount: u128,
}

impl Transfer {
    /// The transfer returns `amount` of the fee of `proposal` to its proposer.
    pub open spec fn refunds(&self, proposal: &GovernanceProposal, amount: nat) -> bool {
        &&& self.to@ == proposal.proposer@
        &&& self.token_identifier@ == proposal.fee_payment.token_identifier@
        &&& self.token_nonce == proposal.fee_payment.token_nonce
        &&& self.amount == amount
    }
}

/// The governance engine: configuration, the proposals in the order of
/// creation, and the fees kept back from vetoed proposals.
#[derive(Clone, Debug)]
pub struct GovernanceV2 {
    pub own_address: Vec<u8>,
    pub config: GovernanceConfig,
    pub records: Vec<Option<ProposalRecord>>,
    pub remaining_fees: Vec<TokenPayment>,
}

impl GovernanceV2 {
    /// The configuration and every stored proposal are well formed.
    pub open spec fn wf(&self) -> bool {
        &&& self.config.wf()
        &&& forall|i: int|
            0 <= i < self.records@.len() && (#[trigger] self.records@[i]) is Some
                ==> self.records@[i]->0.wf()
    }

    /// The id that the next proposal will get.
    pub open spec fn next_proposal_id(&self) -> nat {
        self.records@.len()
    }

    /// A proposal is stored under `id`.
    pub open spec fn has_proposal(&self, id: ProposalId) -> bool {
        id < self.records@.len() && self.records@[id as int] is Some
    }

    /// What is stored under `id`.
    pub open spec fn record(&self, id: ProposalId) -> ProposalRecord
        recommends
            self.has_proposal(id),
    {
        self.records@[id as int]->0
    }

    /// The status of proposal `id` at block `height`.
    pub open spec fn status(&self, id: ProposalId, height: u64) -> GovernanceProposalStatus {
        if self.has_proposal(id) {
            let r = self.record(id);
            status_at(&r.proposal, &r.votes, r.start_block, height)
        } else {
            GovernanceProposalStatus::NoProposal
        }
    }

    /// `address` has voted on proposal `id`.
    pub open spec fn has_voted(&self, id: ProposalId, address: Seq<u8>) -> bool {
        self.has_proposal(id) && is_voter(self.record(id).voters@, address)
    }

    /// Sets the engine up with its configuration and no proposal. Each of the
    /// three percentages is counted in ten-thousandths and may not exceed
    /// `FULL_PERCENTAGE`.
    pub fn init(
        own_address: Vec<u8>,
        min_energy_for_propose: u128,
        min_fee_for_propose: u128,
        fee_token_id: Vec<u8>,
        quorum_percentage: u64,
        voting_delay_in_blocks: u64,
        voting_period_in_blocks: u64,
        withdraw_percentage_defeated: u64,
        veto_threshold_percentage: u64,
        energy_factory_address: Vec<u8>,
        fees_collector_address: Vec<u8>,
    ) -> (result: Result<GovernanceV2, GovernanceError>)
        ensures
            result is Err <==> (quorum_percentage > FULL_PERCENTAGE || withdraw_percentage_defeated
                > FULL_PERCENTAGE || veto_threshold_percentage > FULL_PERCENTAGE),
            result is Err ==> result == Err::<GovernanceV2, GovernanceError>(
                GovernanceError::InvalidPercentage,
            ),
            result is Ok ==> {
                let engine = result->Ok_0;
                &&& engine.wf()
                &&& engine.own_address == own_address
                &&& engine.config == (GovernanceConfig {
                    min_energy_for_propose,
                    min_fee_for_propose,
                    fee_token_id,
                    quorum_percentage,
                    voting_delay_in_blocks,
                    voting_period_in_blocks,
                    withdraw_percentage_defeated,
                    veto_threshold_percentage,
                    energy_factory_address,
                    fees_collector_address,
                })
                &&& engine.records@.len() == 0
                &&& engine.remaining_fees@.len() == 0
            },
    {
        if quorum_percentage > FULL_PERCENTAGE || withdraw_percentage_defeated > FULL_PERCENTAGE
            || veto_threshold_percentage > FULL_PERCENTAGE {
            return Err(GovernanceError::InvalidPercentage);
        }
        Ok(
            GovernanceV2 {
                own_address,
                config: GovernanceConfig {
                    min_energy_for_propose,
                    min_fee_for_propose,
                    fee_token_id,
                    quorum_percentage,
                    voting_delay_in_blocks,
                    voting_period_in_blocks,
                    withdraw_percentage_defeated,
                    veto_threshold_percentage,
                    energy_factory_address,
                    fees_collector_address,
                },
                records: Vec::new(),
                remaining_fees: Vec::new(),
            },
        )
    }

    /// Why `propose` turns a call down, if it does: the first of its
    /// conditions, in this order, that fails.
    pub open spec fn propose_error(
        &self,
        caller: Seq<u8>,
        actions: Seq<GovernanceAction>,
        fee_payment: &TokenPayment,
        user_energy: u128,
    ) -> Option<GovernanceError> {
        if caller == self.own_address@ {
            Some(GovernanceError::CallerIsContract)
        } else if actions.len() == 0 {
            Some(GovernanceError::NoActions)
        } else if actions.len() > MAX_GOVERNANCE_PROPOSAL_ACTIONS {
            Some(GovernanceError::TooManyActions)
        } else if user_energy == 0 || user_energy < self.config.min_energy_for_propose {
            Some(GovernanceError::NotEnoughEnergy)
        } else if fee_payment.token_identifier@ != self.config.fee_token_id@ {
            Some(GovernanceError::WrongTokenId)
        } else if fee_payment.amount != self.config.min_fee_for_propose {
            Some(GovernanceError::NotEnoughFee)
        } else if !each_action_fits(actions) {
            Some(GovernanceError::ActionGasTooHigh)
        } else if gas_sum(actions) >= MAX_GAS_LIMIT_PER_BLOCK {
            Some(GovernanceError::TooMuchGas)
        } else {
            None
        }
    }

    /// The proposal that `propose` writes: what the caller handed in, and the
    /// voting parameters as configured at that moment.
    pub open spec fn new_proposal(
        &self,
        proposer: Vec<u8>,
        description: Vec<u8>,
        actions: Vec<GovernanceAction>,
        fee_payment: TokenPayment,
        total_energy: u128,
    ) -> GovernanceProposal {
        GovernanceProposal {
            proposer,
            description,
            actions,
            fee_payment,
            minimum_quorum: self.config.quorum_percentage,
            voting_delay_in_blocks: self.config.voting_delay_in_blocks,
            voting_period_in_blocks: self.config.voting_period_in_blocks,
            withdraw_percentage_defeated: self.config.withdraw_percentage_defeated,
            veto_threshold_percentage: self.config.veto_threshold_percentage,
            total_energy,
        }
    }

    /// `post` is `self` with `proposal` appended under `id` at block
    /// `start_block`, the proposer's own up-vote of `power` already counted
    /// and `user_energy` in the quorum, and nobody marked as voter.
    pub open spec fn proposed(
        &self,
        post: &GovernanceV2,
        id: ProposalId,
        proposal: GovernanceProposal,
        user_energy: u128,
        start_block: u64,
    ) -> bool {
        &&& id == self.next_proposal_id()
        &&& post.own_address == self.own_address
        &&& post.config == self.config
        &&& post.remaining_fees == self.remaining_fees
        &&& post.records@.len() == self.records@.len() + 1
        &&& post.records@.take(id as int) == self.records@
        &&& post.has_proposal(id)
        &&& post.record(id).proposal == proposal
        &&& post.record(id).start_block == start_block
        &&& post.record(id).voters@.len() == 0
        &&& is_integer_sqrt(user_energy as nat, post.record(id).votes.up_votes as nat)
        &&& post.record(id).votes == (ProposalVotes {
            up_votes: post.record(id).votes.up_votes,
            down_votes: 0,
            down_veto_votes: 0,
            abstain_votes: 0,
            quorum: user_energy,
        })
    }

    /// Creates a proposal of `caller`, who has paid `fee_payment` and holds
    /// `user_energy`; `total_energy` is the energy of the whole network for
    /// the current week and `current_block` the block height. Returns the id
    /// of the proposal. The caller's energy counts at once as an up-vote.
    pub fn propose(
        &mut self,
        caller: Vec<u8>,
        description: Vec<u8>,
        actions: Vec<GovernanceAction>,
        fee_payment: TokenPayment,
        user_energy: u128,
        total_energy: u128,
        current_block: u64,
    ) -> (result: Result<ProposalId, GovernanceError>)
        requires
            old(self).wf(),
        ensures
            final(self).wf(),
            match result {
                Ok(id) => {
                    &&& old(self).propose_error(caller@, actions@, &fee_payment, user_energy)
                        is None
                    &&& old(self).proposed(
                        final(self),
                        id,
                        old(self).new_proposal(
                            caller,
                            description,
                            actions,
                            fee_payment,
                            total_energy,
                        ),
                        user_energy,
                        current_block,
                    )
                },
                Err(e) => {
                    &&& old(self).propose_error(caller@, actions@, &fee_payment, user_energy)
                        == Some(e)
                    &&& *final(self) == *old(self)
                },
            },
    {
        if bytes_eq(&caller, &self.own_address) {
            return Err(GovernanceError::CallerIsContract);
        }
        if actions.len() == 0 {
            return Err(GovernanceError::NoActions);
        }
        if actions.len() > MAX_GOVERNANCE_PROPOSAL_ACTIONS {
            return Err(GovernanceError::TooManyActions);
        }
        if user_energy == 0 || user_energy < self.config.min_energy_for_propose {
            return Err(GovernanceError::NotEnoughEnergy);
        }
        if !bytes_eq(&fee_payment.token_identifier, &self.config.fee_token_id) {
            return Err(GovernanceError::WrongTokenId);
        }
        if fee_payment.amount != self.config.min_fee_for_propose {
            return Err(GovernanceError::NotEnoughFee);
        }
        if !all_actions_fit(&actions) {
            return Err(GovernanceError::ActionGasTooHigh);
        }
        match checked_total_gas(&actions) {
            Some(total) => {
                if total >= MAX_GAS_LIMIT_PER_BLOCK {
                    return Err(GovernanceError::TooMuchGas);
                }
            },
            None => {
                return Err(GovernanceError::TooMuchGas);
            },
        }
        let proposal = GovernanceProposal {
            proposer: caller,
            description,
            actions,
            fee_payment,
            minimum_quorum: self.config.quorum_percentage,
            voting_delay_in_blocks: self.config.voting_delay_in_blocks,
            voting_period_in_blocks: self.config.voting_period_in_blocks,
            withdraw_percentage_defeated: self.config.withdraw_percentage_defeated,
            veto_threshold_percentage: self.config.veto_threshold_percentage,
            total_energy,
        };
        let proposer_voting_power = voting_power(user_energy);
        let votes = ProposalVotes {
            up_votes: proposer_voting_power,
            down_votes: 0,
            down_veto_votes: 0,
            abstain_votes: 0,
            quorum: user_energy,
        };
        let proposal_id: ProposalId = self.records.len();
        self.records.push(
            Some(ProposalRecord { proposal, votes, voters: Vec::new(), start_block: current_block }),
        );
        proof {
            assert(self.records@.take(proposal_id as int) =~= old(self).records@);
        }
        Ok(proposal_id)
    }

    /// Why `vote` turns a call down, if it does: the first of its conditions,
    /// in this order, that fails.
    pub open spec fn vote_error(
        &self,
        caller: Seq<u8>,
        id: ProposalId,
        user_energy: u128,
        height: u64,
    ) -> Option<GovernanceError> {
        if caller == self.own_address@ {
            Some(GovernanceError::CallerIsContract)
        } else if !self.has_proposal(id) {
            Some(GovernanceError::ProposalNotFound)
        } else if self.status(id, height) != GovernanceProposalStatus::Active {
            Some(GovernanceError::ProposalNotActive)
        } else if self.has_voted(id, caller) {
            Some(GovernanceError::AlreadyVoted)
        } else if self.record(id).votes.quorum + user_energy > u128::MAX {
            Some(GovernanceError::EnergyOverflow)
        } else {
            None
        }
    }

    /// `post` is `self` after `caller` has cast `vote` on proposal `id` with
    /// `power`, backed by `user_energy`: the power is in the bucket of its
    /// kind, the energy in the quorum, the caller last among the voters, and
    /// all else as it was.
    pub open spec fn voted(
        &self,
        post: &GovernanceV2,
        caller: Vec<u8>,
        id: ProposalId,
        vote: VoteType,
        power: u128,
        user_energy: u128,
    ) -> bool {
        &&& self.has_proposal(id)
        &&& post.own_address == self.own_address
        &&& post.config == self.config
        &&& post.remaining_fees == self.remaining_fees
        &&& post.records@.len() == self.records@.len()
        &&& forall|j: int|
            0 <= j < self.records@.len() && j != id ==> post.records@[j] == self.records@[j]
        &&& post.has_proposal(id)
        &&& post.record(id).proposal == self.record(id).proposal
        &&& post.record(id).start_block == self.record(id).start_block
        &&& post.record(id).voters@ == self.record(id).voters@.push(caller)
        &&& post.record(id).votes == self.record(id).votes.with_vote(vote, power, user_energy)
    }

    /// Casts the vote of `caller`, who holds `user_energy`, on proposal `id`
    /// at block `current_block`. Returns the voting power that was counted:
    /// the integer square root of the energy.
    pub fn vote(
        &mut self,
        caller: Vec<u8>,
        id: ProposalId,
        vote: VoteType,
        user_energy: u128,
        current_block: u64,
    ) -> (result: Result<u128, GovernanceError>)
        requires
            old(self).wf(),
        ensures
            final(self).wf(),
            match result {
                Ok(power) => {
                    &&& old(self).vote_error(caller@, id, user_energy, current_block) is None
                    &&& is_integer_sqrt(user_energy as nat, power as nat)
                    &&& old(self).voted(final(self), caller, id, vote, power, user_energy)
                },
                Err(e) => {
                    &&& old(self).vote_error(caller@, id, user_energy, current_block) == Some(e)
                    &&& *final(self) == *old(self)
                },
            },
    {
        if bytes_eq(&caller, &self.own_address) {
            return Err(GovernanceError::CallerIsContract);
        }
        if !self.proposal_exists(id) {
            return Err(GovernanceError::ProposalNotFound);
        }
        if self.get_proposal_status(id, current_block) != GovernanceProposalStatus::Active {
            return Err(GovernanceError::ProposalNotActive);
        }
        let record = self.records[id].as_ref().unwrap();
        if contains_bytes(&record.voters, &caller) {
            return Err(GovernanceError::AlreadyVoted);
        }
        if user_energy > u128::MAX - record.votes.quorum {
            return Err(GovernanceError::EnergyOverflow);
        }
        let voting_power = voting_power(user_energy);
        match &mut self.records[id] {
            Some(r) => {
                r.votes.add_vote(vote, voting_power, user_energy);
                r.voters.push(caller);
            },
            None => {},
        }
        Ok(voting_power)
    }

    /// `post` is `self` with proposal `id` removed: its tally and its voters
    /// go with it, and the id is never given again.
    pub open spec fn cleared(&self, post: &GovernanceV2, id: ProposalId) -> bool {
        &&& self.has_proposal(id)
        &&& post.own_address == self.own_address
        &&& post.config == self.config
        &&& post.records@ == self.records@.update(id as int, None)
    }

    /// Why `cancel` turns a call down, if it does.
    pub open spec fn cancel_error(&self, caller: Seq<u8>, id: ProposalId, height: u64) -> Option<
        GovernanceError,
    > {
        if caller == self.own_address@ {
            Some(GovernanceError::CallerIsContract)
        } else {
            match self.status(id, height) {
                GovernanceProposalStatus::NoProposal => Some(GovernanceError::ProposalNotFound),
                GovernanceProposalStatus::Pending => if caller != self.record(id).proposal.proposer@ {
                    Some(GovernanceError::NotProposer)
                } else {
                    None
                },
                _ => Some(GovernanceError::CannotCancel),
            }
        }
    }

    /// What the proposer of `proposal` gets back of the fee when the proposal
    /// has come to `status`: after a veto the configured share, rounded down,
    /// else all of it.
    pub open spec fn refund_due(proposal: &GovernanceProposal, status: GovernanceProposalStatus)
        -> nat {
        if status == GovernanceProposalStatus::DefeatedWithVeto {
            percentage_floor(
                proposal.fee_payment.amount as nat,
                proposal.withdraw_percentage_defeated as nat,
            )
        } else {
            proposal.fee_payment.amount as nat
        }
    }

    /// Why `withdraw_after_defeated` turns a call down, if it does.
    pub open spec fn withdraw_error(&self, caller: Seq<u8>, id: ProposalId, height: u64)
        -> Option<GovernanceError> {
        if caller == self.own_address@ {
            Some(GovernanceError::CallerIsContract)
        } else {
            match self.status(id, height) {
                GovernanceProposalStatus::NoProposal => Some(GovernanceError::ProposalNotFound),
                GovernanceProposalStatus::Pending | GovernanceProposalStatus::Active => Some(
                    GovernanceError::CannotWithdraw,
                ),
                _ => if caller != self.record(id).proposal.proposer@ {
                    Some(GovernanceError::NotProposer)
                } else {
                    None
                },
            }
        }
    }

    /// `post` holds the fees that `self` holds and, after them, `amount` of
    /// the fee token of `proposal`.
    pub open spec fn fee_retained(
        &self,
        post: &GovernanceV2,
        proposal: &GovernanceProposal,
        amount: nat,
    ) -> bool {
        &&& post.remaining_fees@.len() == self.remaining_fees@.len() + 1
        &&& post.remaining_fees@.drop_last() == self.remaining_fees@
        &&& post.remaining_fees@.last().token_identifier@ == proposal.fee_payment.token_identifier@
        &&& post.remaining_fees@.last().token_nonce == proposal.fee_payment.token_nonce
        &&& post.remaining_fees@.last().amount == amount
    }

    /// The order that sends `refund_amount` of the fee token of proposal `id`
    /// back to its proposer.
    pub fn refund_proposal_fee(&self, id: ProposalId, refund_amount: u128) -> (transfer: Transfer)
        requires
            self.has_proposal(id),
        ensures
            transfer.refunds(&self.record(id).proposal, refund_amount as nat),
    {
        let proposal = &self.records[id].as_ref().unwrap().proposal;
        Transfer {
            to: proposal.proposer.clone(),
            token_identifier: proposal.fee_payment.token_identifier.clone(),
            token_nonce: proposal.fee_payment.token_nonce,
            amount: refund_amount,
        }
    }

    /// Removes proposal `id` with its tally and its voters.
    pub fn clear_proposal(&mut self, id: ProposalId)
        requires
            old(self).wf(),
            old(self).has_proposal(id),
        ensures
            final(self).wf(),
            old(self).cleared(final(self), id),
            final(self).remaining_fees == old(self).remaining_fees,
    {
        self.records.set(id, None);
    }

    /// Cancels proposal `id` for `caller` at block `current_block`. Only the
    /// proposer may cancel, and only while the proposal is pending. Returns
    /// the order that refunds the whole fee.
    pub fn cancel(&mut self, caller: &Vec<u8>, id: ProposalId, current_block: u64) -> (result:
        Result<Transfer, GovernanceError>)
        requires
            old(self).wf(),
        ensures
            final(self).wf(),
            match result {
                Ok(transfer) => {
                    &&& old(self).cancel_error(caller@, id, current_block) is None
                    &&& transfer.refunds(
                        &old(self).record(id).proposal,
                        old(self).record(id).proposal.fee_payment.amount as nat,
                    )
                    &&& old(self).cleared(final(self), id)
                    &&& final(self).remaining_fees == old(self).remaining_fees
                },
                Err(e) => {
                    &&& old(self).cancel_error(caller@, id, current_block) == Some(e)
                    &&& *final(self) == *old(self)
                },
            },
    {
        if bytes_eq(caller, &self.own_address) {
            return Err(GovernanceError::CallerIsContract);
        }
        match self.get_proposal_status(id, current_block) {
            GovernanceProposalStatus::NoProposal => Err(GovernanceError::ProposalNotFound),
            GovernanceProposalStatus::Pending => {
                let proposal = &self.records[id].as_ref().unwrap().proposal;
                if !bytes_eq(caller, &proposal.proposer) {
                    return Err(GovernanceError::NotProposer);
                }
                let transfer = self.refund_proposal_fee(id, proposal.fee_payment.amount);
                self.clear_proposal(id);
                Ok(transfer)
            },
            _ => Err(GovernanceError::CannotCancel),
        }
    }

    /// Withdraws the fee of proposal `id` for `caller`, its proposer, once
    /// the voting is over at block `current_block`, and removes the proposal.
    /// After a veto only the share written into the proposal goes back, and
    /// the engine keeps the rest; otherwise the whole fee goes back.
    pub fn withdraw_after_defeated(
        &mut self,
        caller: &Vec<u8>,
        id: ProposalId,
        current_block: u64,
    ) -> (result: Result<Transfer, GovernanceError>)
        requires
            old(self).wf(),
        ensures
            final(self).wf(),
            match result {
                Ok(transfer) => {
                    let proposal = old(self).record(id).proposal;
                    let status = old(self).status(id, current_block);
                    let refund = Self::refund_due(&proposal, status);
                    &&& old(self).withdraw_error(caller@, id, current_block) is None
                    &&& transfer.refunds(&proposal, refund)
                    &&& old(self).cleared(final(self), id)
                    &&& if status == GovernanceProposalStatus::DefeatedWithVeto {
                        old(self).fee_retained(
                            final(self),
                            &proposal,
                            (proposal.fee_payment.amount - refund) as nat,
                        )
                    } else {
                        final(self).remaining_fees == old(self).remaining_fees
                    }
                },
                Err(e) => {
                    &&& old(self).withdraw_error(caller@, id, current_block) == Some(e)
                    &&& *final(self) == *old(self)
                },
            },
    {
        if bytes_eq(caller, &self.own_address) {
            return Err(GovernanceError::CallerIsContract);
        }
        let status = self.get_proposal_status(id, current_block);
        match status {
            GovernanceProposalStatus::NoProposal => {
                return Err(GovernanceError::ProposalNotFound);
            },
            GovernanceProposalStatus::Pending | GovernanceProposalStatus::Active => {
                return Err(GovernanceError::CannotWithdraw);
            },
            _ => {},
        }
        let proposal = &self.records[id].as_ref().unwrap().proposal;
        if !bytes_eq(caller, &proposal.proposer) {
            return Err(GovernanceError::NotProposer);
        }
        let fee_amount = proposal.fee_payment.amount;
        let transfer = match status {
            GovernanceProposalStatus::DefeatedWithVeto => {
                let refund_amount = percentage_of(fee_amount, proposal.withdraw_percentage_defeated);
                let remaining_fee = TokenPayment {
                    token_identifier: proposal.fee_payment.token_identifier.clone(),
                    token_nonce: proposal.fee_payment.token_nonce,
                    amount: fee_amount - refund_amount,
                };
                let transfer = self.refund_proposal_fee(id, refund_amount);
                self.remaining_fees.push(remaining_fee);
                proof {
                    assert(self.remaining_fees@.drop_last() =~= old(self).remaining_fees@);
                }
                transfer
            },
            _ => self.refund_proposal_fee(id, fee_amount),
        };
        self.clear_proposal(id);
        Ok(transfer)
    }

    /// The gas that `actions` ask for in all.
    pub fn total_gas_needed(&self, actions: &Vec<GovernanceAction>) -> (total: u64)
        requires
            gas_sum(actions@) <= u64::MAX,
        ensures
            total == gas_sum(actions@),
    {
        checked_total_gas(actions).unwrap()
    }

    /// The fees kept back from vetoed proposals, oldest first.
    pub fn proposal_remaining_fees(&self) -> (fees: &Vec<TokenPayment>)
        ensures
            fees == &self.remaining_fees,
    {
        &self.remaining_fees
    }

    /// Whether the engine is well formed. An engine that `init` made and
    /// that only the engine's own operations have changed always is; one
    /// that was put together from stored parts is to be tested before use.
    pub fn is_well_formed(&self) -> (ok: bool)
        ensures
            ok == self.wf(),
    {
        if self.config.quorum_percentage > FULL_PERCENTAGE
            || self.config.withdraw_percentage_defeated > FULL_PERCENTAGE
            || self.config.veto_threshold_percentage > FULL_PERCENTAGE {
            return false;
        }
        let mut i: usize = 0;
        while i < self.records.len()
            invariant
                0 <= i <= self.records.len(),
                forall|j: int|
                    0 <= j < i && (#[trigger] self.records@[j]) is Some ==> self.records@[j]->0.wf(),
            decreases self.records.len() - i,
        {
            match &self.records[i] {
                Some(r) => {
                    if !r.is_well_formed() {
                        return false;
                    }
                },
                None => {},
            }
            i = i + 1;
        }
        true
    }

    /// Whether a proposal is stored under `id`.
    pub fn proposal_exists(&self, id: ProposalId) -> (exists: bool)
        ensures
            exists == self.has_proposal(id),
    {
        id < self.records.len() && self.records[id].is_some()
    }

    /// The status of proposal `id` at block `current_block`. Nothing is
    /// stored of it: each call works it out again.
    pub fn get_proposal_status(&self, id: ProposalId, current_block: u64) -> (status:
        GovernanceProposalStatus)
        requires
            self.wf(),
        ensures
            status == self.status(id, current_block),
    {
        if id >= self.records.len() {
            return GovernanceProposalStatus::NoProposal;
        }
        match &self.records[id] {
            Some(r) => resolve_status(&r.proposal, &r.votes, r.start_block, current_block),
            None => GovernanceProposalStatus::NoProposal,
        }
    }
}

} // verus!
