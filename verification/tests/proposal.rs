use governance_v2::bytes::{bytes_eq, contains_bytes};
use governance_v2::proposal::{
    all_actions_fit, checked_total_gas, GovernanceAction, GovernanceProposal,
    GovernanceProposalStatus, TokenPayment, MAX_GAS_LIMIT_PER_BLOCK,
};
use governance_v2::votes::{resolve_outcome, resolve_status, ProposalVotes, VoteType};

fn action(gas_limit: u64) -> GovernanceAction {
    GovernanceAction { gas_limit, dest_address: vec![1], function_name: vec![2], arguments: vec![] }
}

fn proposal(minimum_quorum: u64, veto_threshold_percentage: u64, total_energy: u128)
    -> GovernanceProposal {
    GovernanceProposal {
        proposer: vec![9],
        description: vec![],
        actions: vec![action(1)],
        fee_payment: TokenPayment { token_identifier: vec![7], token_nonce: 0, amount: 10 },
        minimum_quorum,
        voting_delay_in_blocks: 3,
        voting_period_in_blocks: 4,
        withdraw_percentage_defeated: 5_000,
        veto_threshold_percentage,
        total_energy,
    }
}

fn tally(up: u128, down: u128, veto: u128, abstain: u128, quorum: u128) -> ProposalVotes {
    ProposalVotes {
        up_votes: up,
        down_votes: down,
        down_veto_votes: veto,
        abstain_votes: abstain,
        quorum,
    }
}

#[test]
fn byte_strings_compare_by_content() {
    assert!(bytes_eq(&vec![], &vec![]));
    assert!(bytes_eq(&vec![1, 2, 3], &vec![1, 2, 3]));
    assert!(!bytes_eq(&vec![1, 2, 3], &vec![1, 2]));
    assert!(!bytes_eq(&vec![1, 2, 3], &vec![1, 2, 4]));
    assert!(contains_bytes(&vec![vec![1], vec![2, 3]], &vec![2, 3]));
    assert!(!contains_bytes(&vec![vec![1], vec![2, 3]], &vec![2]));
    assert!(!contains_bytes(&vec![], &vec![]));
}

#[test]
fn gas_totals_are_checked() {
    assert_eq!(checked_total_gas(&vec![]), Some(0));
    assert_eq!(checked_total_gas(&vec![action(2), action(3)]), Some(5));
    assert_eq!(checked_total_gas(&vec![action(u64::MAX), action(1)]), None);
    assert_eq!(checked_total_gas(&vec![action(u64::MAX), action(0)]), Some(u64::MAX));
    assert!(all_actions_fit(&vec![]));
    assert!(all_actions_fit(&vec![action(MAX_GAS_LIMIT_PER_BLOCK - 1)]));
    assert!(!all_actions_fit(&vec![action(0), action(MAX_GAS_LIMIT_PER_BLOCK)]));
}

#[test]
fn the_tally_adds_power_and_energy() {
    let mut votes = ProposalVotes::new();
    assert_eq!(votes, tally(0, 0, 0, 0, 0));
    votes.add_vote(VoteType::UpVote, 3, 9);
    votes.add_vote(VoteType::DownVote, 2, 4);
    votes.add_vote(VoteType::DownVetoVote, 1, 1);
    votes.add_vote(VoteType::AbstainVote, 4, 16);
    votes.add_vote(VoteType::UpVote, 0, 0);
    assert_eq!(votes, tally(3, 2, 1, 4, 30));
    assert_eq!(votes.get_total_votes(), 10);
}

#[test]
fn outcome_puts_veto_before_quorum_before_majority() {
    let p = proposal(5_000, 3_000, 100);
    assert_eq!(
        resolve_outcome(&p, &tally(10, 0, 5, 0, 20)),
        GovernanceProposalStatus::DefeatedWithVeto
    );
    assert_eq!(resolve_outcome(&p, &tally(10, 0, 3, 0, 20)), GovernanceProposalStatus::Defeated);
    assert_eq!(resolve_outcome(&p, &tally(10, 0, 3, 0, 50)), GovernanceProposalStatus::Succeeded);
    assert_eq!(resolve_outcome(&p, &tally(10, 10, 3, 0, 50)), GovernanceProposalStatus::Defeated);
    assert_eq!(resolve_outcome(&p, &tally(10, 11, 3, 0, 50)), GovernanceProposalStatus::Defeated);
    assert_eq!(resolve_outcome(&p, &tally(0, 0, 0, 0, 0)), GovernanceProposalStatus::Defeated);
    assert_eq!(
        resolve_outcome(&proposal(0, 0, 0), &tally(1, 0, 0, 0, 1)),
        GovernanceProposalStatus::Succeeded
    );
}

#[test]
fn outcome_with_the_largest_numbers() {
    let p = proposal(10_000, 10_000, u128::MAX);
    let all = tally(u128::MAX, 0, 0, 0, u128::MAX);
    assert_eq!(resolve_outcome(&p, &all), GovernanceProposalStatus::Succeeded);
    let short = tally(u128::MAX - 1, 0, 0, 0, u128::MAX - 1);
    assert_eq!(resolve_outcome(&p, &short), GovernanceProposalStatus::Defeated);
    let veto = tally(0, 0, u128::MAX, 0, u128::MAX);
    assert_eq!(resolve_outcome(&p, &veto), GovernanceProposalStatus::Defeated);
    let q = proposal(10_000, 9_999, u128::MAX);
    assert_eq!(resolve_outcome(&q, &veto), GovernanceProposalStatus::DefeatedWithVeto);
}

#[test]
fn status_is_the_same_for_the_same_inputs() {
    let p = proposal(5_000, 3_000, 100);
    let votes = tally(10, 0, 3, 0, 50);
    for height in [0u64, 9, 10, 12, 13, 16, 17, 1_000, u64::MAX] {
        assert_eq!(resolve_status(&p, &votes, 10, height), resolve_status(&p, &votes, 10, height));
    }
    assert_eq!(resolve_status(&p, &votes, 10, 12), GovernanceProposalStatus::Pending);
    assert_eq!(resolve_status(&p, &votes, 10, 13), GovernanceProposalStatus::Active);
    assert_eq!(resolve_status(&p, &votes, 10, 16), GovernanceProposalStatus::Active);
    assert_eq!(resolve_status(&p, &votes, 10, 17), GovernanceProposalStatus::Succeeded);
}
