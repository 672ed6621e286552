use crate::math::FULL_PERCENTAGE;
use vstd::prelude::*;

verus! {

/// Index of a proposal in the order of creation.
pub type ProposalId = usize;

/// The most actions one proposal may carry.
pub const MAX_GOVERNANCE_PROPOSAL_ACTIONS: usize = 4;

/// Gas that one block offers; a proposal must stay strictly below it.
pub const MAX_GAS_LIMIT_PER_BLOCK: u64 = 600_000_000;

/// One call that a proposal asks for. The engine stores it and measures its
/// gas; what the call does is not its concern.
#[derive(Clone, Debug)]
pub struct GovernanceAction {
    pub gas_limit: u64,
    pub dest_address: Vec<u8>,
    pub function_name: Vec<u8>,
    pub arguments: Vec<Vec<u8>>,
}

/// An amount of one token: identifier, nonce and amount.
#[derive(Clone, Debug)]
pub struct TokenPayment {
    pub token_identifier: Vec<u8>,
    pub token_nonce: u64,
    pub amount: u128,
}

/// A proposal as written at creation; it never changes afterwards.
#[derive(Clone, Debug)]
pub struct GovernanceProposal {
    pub proposer: Vec<u8>,
    pub description: Vec<u8>,
    pub actions: Vec<GovernanceAction>,
    pub fee_payment: TokenPayment,
    pub minimum_quorum: u64,
    pub voting_delay_in_blocks: u64,
    pub voting_period_in_blocks: u64,
    pub withdraw_percentage_defeated: u64,
    pub veto_threshold_percentage: u64,
    pub total_energy: u128,
}

/// What a proposal has come to at some block height.
#[derive(Clone, Copy, Debug, PartialEq, Eq, Structural)]
pub enum GovernanceProposalStatus {
    /// No proposal is stored under the id.
    NoProposal,
    Pending,
    Active,
    Succeeded,
    Defeated,
    DefeatedWithVeto,
}

/// The gas that a sequence of actions asks for in all.
pub open spec fn gas_sum(actions: Seq<GovernanceAction>) -> nat
    decreases actions.len(),
{
    if actions.len() == 0 {
        0
    } else {
        gas_sum(actions.drop_last()) + actions.last().gas_limit as nat
    }
}

/// Every action stays strictly below the gas of one block.
pub open spec fn each_action_fits(actions: Seq<GovernanceAction>) -> bool {
    forall|i: int| 0 <= i < actions.len() ==> (#[trigger] actions[i]).gas_limit < MAX_GAS_LIMIT_PER_BLOCK
}

/// The total never falls when actions are added at the end.
pub proof fn lemma_gas_sum_prefix(actions: Seq<GovernanceAction>, n: int)
    requires
        0 <= n <= actions.len(),
    ensures
        gas_sum(actions.take(n)) <= gas_sum(actions),
    decreases actions.len(),
{
    if n == actions.len() {
        assert(actions.take(n) =~= actions);
    } else {
        lemma_gas_sum_prefix(actions.drop_last(), n);
        assert(actions.drop_last().take(n) =~= actions.take(n));
    }
}

/// The gas that `actions` ask for in all, or `None` where the total does not
/// fit in 64 bits.
pub fn checked_total_gas(actions: &Vec<GovernanceAction>) -> (total: Option<u64>)
    ensures
        match total {
            Some(t) => t == gas_sum(actions@),
            None => gas_sum(actions@) > u64::MAX,
        },
{
    let mut total: u64 = 0;
    let mut i: usize = 0;
    while i < actions.len()
        invariant
            0 <= i <= actions.len(),
            total == gas_sum(actions@.take(i as int)),
        decreases actions.len() - i,
    {
        let gas: u64 = actions[i].gas_limit;
        proof {
            let next = actions@.take(i + 1);
            assert(next.drop_last() =~= actions@.take(i as int));
            assert(next.last() == actions@[i as int]);
            lemma_gas_sum_prefix(actions@, i + 1);
        }
        if gas > u64::MAX - total {
            return None;
        }
        total = total + gas;
        i = i + 1;
    }
    proof {
        assert(actions@.take(i as int) =~= actions@);
    }
    Some(total)
}

/// Whether every action stays strictly below the gas of one block.
pub fn all_actions_fit(actions: &Vec<GovernanceAction>) -> (fit: bool)
    ensures
        fit == each_action_fits(actions@),
{
    let mut i: usize = 0;
    while i < actions.len()
        invariant
            0 <= i <= actions.len(),
            forall|j: int| 0 <= j < i ==> (#[trigger] actions@[j]).gas_limit < MAX_GAS_LIMIT_PER_BLOCK,
        decreases actions.len() - i,
    {
        if actions[i].gas_limit >= MAX_GAS_LIMIT_PER_BLOCK {
            return false;
        }
        i = i + 1;
    }
    true
}

impl GovernanceProposal {
    /// What holds of every stored proposal: between one and the maximum of
    /// actions, each and all together strictly below the gas of one block,
    /// and no percentage above the whole.
    pub open spec fn wf(&self) -> bool {
        &&& 1 <= self.actions@.len() <= MAX_GOVERNANCE_PROPOSAL_ACTIONS
        &&& each_action_fits(self.actions@)
        &&& gas_sum(self.actions@) < MAX_GAS_LIMIT_PER_BLOCK
        &&& self.minimum_quorum <= FULL_PERCENTAGE
        &&& self.withdraw_percentage_defeated <= FULL_PERCENTAGE
        &&& self.veto_threshold_percentage <= FULL_PERCENTAGE
    }

    /// Whether the proposal is well formed.
    pub fn is_well_formed(&self) -> (ok: bool)
        ensures
            ok == self.wf(),
    {
        if self.actions.len() == 0 || self.actions.len() > MAX_GOVERNANCE_PROPOSAL_ACTIONS {
            return false;
        }
        if !all_actions_fit(&self.actions) {
            return false;
        }
        let gas_fits = match checked_total_gas(&self.actions) {
            Some(total) => total < MAX_GAS_LIMIT_PER_BLOCK,
            None => false,
        };
        gas_fits && self.minimum_quorum <= FULL_PERCENTAGE && self.withdraw_percentage_defeated
            <= FULL_PERCENTAGE && self.veto_threshold_percentage <= FULL_PERCENTAGE
    }

    /// First block at which votes are taken.
    pub open spec fn voting_start(&self, start_block: u64) -> int {
        start_block + self.voting_delay_in_blocks
    }

    /// First block at which votes are no longer taken.
    pub open spec fn voting_end(&self, start_block: u64) -> int {
        start_block + self.voting_delay_in_blocks + self.voting_period_in_blocks
    }
}

} // verus!
