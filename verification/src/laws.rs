use crate::engine::{is_voter, GovernanceError, GovernanceV2};
use crate::math::{percentage_floor, FULL_PERCENTAGE};
use crate::power::is_integer_sqrt;
use crate::proposal::{GovernanceProposal, GovernanceProposalStatus, ProposalId};
use crate::votes::VoteType;
use vstd::prelude::*;

verus! {

/// The status of a proposal depends on the block height, on the proposal as
/// written at creation, on its tally and on its start block, and on nothing
/// else: two engines that agree on these agree on the status, whatever else
/// they hold.
pub proof fn lemma_status_is_a_function_of_height_snapshot_and_tally(
    a: &GovernanceV2,
    b: &GovernanceV2,
    id: ProposalId,
    height: u64,
)
    requires
        a.has_proposal(id),
        b.has_proposal(id),
        a.record(id).proposal == b.record(id).proposal,
        a.record(id).votes == b.record(id).votes,
        a.record(id).start_block == b.record(id).start_block,
    ensures
        a.status(id, height) == b.status(id, height),
{
}

/// A proposal is pending at the block of its creation unless it was made
/// with no voting delay, and it is never without status while it is stored.
pub proof fn lemma_new_proposal_is_pending(engine: &GovernanceV2, id: ProposalId)
    requires
        engine.has_proposal(id),
    ensures
        engine.status(id, engine.record(id).start_block) != GovernanceProposalStatus::NoProposal,
        engine.record(id).proposal.voting_delay_in_blocks > 0 ==> engine.status(
            id,
            engine.record(id).start_block,
        ) == GovernanceProposalStatus::Pending,
{
}

/// Ids grow strictly: a proposal made in any state that has at least as many
/// ids behind it as the state after an earlier proposal gets a greater id.
pub proof fn lemma_proposal_ids_increase(
    first_pre: &GovernanceV2,
    first_post: &GovernanceV2,
    first_id: ProposalId,
    first_proposal: GovernanceProposal,
    first_energy: u128,
    first_block: u64,
    second_pre: &GovernanceV2,
    second_post: &GovernanceV2,
    second_id: ProposalId,
    second_proposal: GovernanceProposal,
    second_energy: u128,
    second_block: u64,
)
    requires
        first_pre.proposed(
            first_post,
            first_id,
            first_proposal,
            first_energy,
            first_block,
        ),
        first_post.next_proposal_id() <= second_pre.next_proposal_id(),
        second_pre.proposed(
            second_post,
            second_id,
            second_proposal,
            second_energy,
            second_block,
        ),
    ensures
        first_id < second_id,
        second_post.next_proposal_id() == second_id + 1,
{
}

/// A vote gives no id away and takes none back.
pub proof fn lemma_vote_keeps_next_id(
    pre: &GovernanceV2,
    post: &GovernanceV2,
    caller: Vec<u8>,
    id: ProposalId,
    vote: VoteType,
    power: u128,
    user_energy: u128,
)
    requires
        pre.voted(post, caller, id, vote, power, user_energy),
    ensures
        post.next_proposal_id() == pre.next_proposal_id(),
{
}

/// Removing a proposal leaves its id used: the next proposal still gets a
/// fresh one, and the removed one has no status any more.
pub proof fn lemma_clear_keeps_next_id(
    pre: &GovernanceV2,
    post: &GovernanceV2,
    id: ProposalId,
    height: u64,
)
    requires
        pre.cleared(post, id),
    ensures
        post.next_proposal_id() == pre.next_proposal_id(),
        !post.has_proposal(id),
        post.status(id, height) == GovernanceProposalStatus::NoProposal,
{
}

/// Who has voted on a proposal cannot vote on it again: after a vote of
/// `caller` was taken, every further vote of `caller` on that proposal is
/// turned down, and while the proposal is active the reason is
/// `AlreadyVoted`.
pub proof fn lemma_second_vote_is_rejected(
    pre: &GovernanceV2,
    post: &GovernanceV2,
    caller: Vec<u8>,
    id: ProposalId,
    vote: VoteType,
    power: u128,
    user_energy: u128,
    height: u64,
    later_energy: u128,
    later_height: u64,
)
    requires
        pre.vote_error(caller@, id, user_energy, height) is None,
        pre.voted(post, caller, id, vote, power, user_energy),
    ensures
        post.has_voted(id, caller@),
        post.vote_error(caller@, id, later_energy, later_height) is Some,
        post.status(id, later_height) == GovernanceProposalStatus::Active ==> post.vote_error(
            caller@,
            id,
            later_energy,
            later_height,
        ) == Some(GovernanceError::AlreadyVoted),
{
    let voters = post.record(id).voters@;
    let last = voters.len() - 1;
    assert(voters[last]@ == caller@);
    assert(is_voter(voters, caller@));
}

/// Votes of others do not make a voter eligible again.
pub proof fn lemma_vote_keeps_voters(
    pre: &GovernanceV2,
    post: &GovernanceV2,
    caller: Vec<u8>,
    id: ProposalId,
    vote: VoteType,
    power: u128,
    user_energy: u128,
    other_id: ProposalId,
    address: Seq<u8>,
)
    requires
        pre.voted(post, caller, id, vote, power, user_energy),
        pre.has_voted(other_id, address),
    ensures
        post.has_voted(other_id, address),
{
    if other_id == id {
        let j = choose|j: int|
            0 <= j < pre.record(id).voters@.len() && #[trigger] pre.record(id).voters@[j]@
                == address;
        assert(post.record(id).voters@[j]@ == address);
    } else {
        assert(post.records@[other_id as int] == pre.records@[other_id as int]);
    }
}

/// The quorum of a proposal never falls: a vote adds the voter's energy to
/// it, and a vote on another proposal leaves it alone.
pub proof fn lemma_quorum_never_falls(
    pre: &GovernanceV2,
    post: &GovernanceV2,
    caller: Vec<u8>,
    id: ProposalId,
    vote: VoteType,
    power: u128,
    user_energy: u128,
    height: u64,
    watched: ProposalId,
)
    requires
        pre.vote_error(caller@, id, user_energy, height) is None,
        pre.voted(post, caller, id, vote, power, user_energy),
        pre.has_proposal(watched),
    ensures
        post.has_proposal(watched),
        post.record(watched).votes.quorum >= pre.record(watched).votes.quorum,
        post.record(id).votes.quorum == pre.record(id).votes.quorum + user_energy,
{
    if watched != id {
        assert(post.records@[watched as int] == pre.records@[watched as int]);
    }
}

/// The voting power that an energy gives is determined: a number has one
/// integer square root and no other.
pub proof fn lemma_voting_power_is_determined(value: nat, a: nat, b: nat)
    requires
        is_integer_sqrt(value, a),
        is_integer_sqrt(value, b),
    ensures
        a == b,
{
    if a < b {
        assert((a + 1) * (a + 1) <= b * b) by (nonlinear_arith)
            requires
                a + 1 <= b,
        ;
    } else if b < a {
        assert((b + 1) * (b + 1) <= a * a) by (nonlinear_arith)
            requires
                b + 1 <= a,
        ;
    }
}

/// After a veto the refund and what the engine keeps add up to the fee, to
/// the unit, for every fee and every percentage up to the whole; nothing
/// goes back at 0 and all of it at `FULL_PERCENTAGE`.
pub proof fn lemma_refund_and_retained_make_the_fee(fee: nat, percentage: nat)
    requires
        percentage <= FULL_PERCENTAGE,
    ensures
        percentage_floor(fee, percentage) <= fee,
        percentage_floor(fee, percentage) + (fee - percentage_floor(fee, percentage)) == fee,
        percentage_floor(fee, 0) == 0,
        percentage_floor(fee, FULL_PERCENTAGE as nat) == fee,
{
    assert(fee * percentage / 10_000 <= fee) by (nonlinear_arith)
        requires
            percentage <= 10_000,
    ;
    assert(fee * 0 / 10_000 == 0) by (nonlinear_arith);
    assert(fee * 10_000 / 10_000 == fee) by (nonlinear_arith);
}

/// Whatever a proposal has come to, the refund that is due never exceeds
/// the fee that was paid.
pub proof fn lemma_refund_never_exceeds_fee(
    proposal: &GovernanceProposal,
    status: GovernanceProposalStatus,
)
    requires
        proposal.wf(),
    ensures
        GovernanceV2::refund_due(proposal, status) <= proposal.fee_payment.amount,
{
    lemma_refund_and_retained_make_the_fee(
        proposal.fee_payment.amount as nat,
        proposal.withdraw_percentage_defeated as nat,
    );
}

} // verus!
