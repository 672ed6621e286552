use governance_v2::bytes::all_distinct;
use governance_v2::engine::{GovernanceError, GovernanceV2};
use governance_v2::proposal::{GovernanceAction, TokenPayment, MAX_GAS_LIMIT_PER_BLOCK};
use governance_v2::votes::{ProposalVotes, VoteType};

fn fresh() -> GovernanceV2 {
    let mut g = GovernanceV2::init(
        b"self".to_vec(), 1, 10, b"FEE".to_vec(), 5_000, 2, 3, 2_500, 3_000, vec![], vec![],
    )
    .unwrap();
    let actions = vec![GovernanceAction {
        gas_limit: 10,
        dest_address: vec![],
        function_name: vec![],
        arguments: vec![],
    }];
    let fee = TokenPayment { token_identifier: b"FEE".to_vec(), token_nonce: 0, amount: 10 };
    g.propose(b"ann".to_vec(), vec![], actions, fee, 9, 18, 0).unwrap();
    g.vote(b"ben".to_vec(), 0, VoteType::DownVote, 4, 2).unwrap();
    g
}

#[test]
fn an_engine_made_by_its_own_operations_is_well_formed() {
    let mut g = fresh();
    assert!(g.is_well_formed());
    g.withdraw_after_defeated(&b"ann".to_vec(), 0, 5).unwrap();
    assert!(g.is_well_formed());
}

#[test]
fn damaged_state_is_told_apart() {
    let mut g = fresh();
    g.config.quorum_percentage = 10_001;
    assert!(!g.is_well_formed());

    let mut g = fresh();
    g.records[0].as_mut().unwrap().voters.push(b"ben".to_vec());
    assert!(!g.is_well_formed());

    let mut g = fresh();
    g.records[0].as_mut().unwrap().votes.up_votes = 100;
    assert!(!g.is_well_formed());

    let mut g = fresh();
    g.records[0].as_mut().unwrap().proposal.actions.clear();
    assert!(!g.is_well_formed());

    let mut g = fresh();
    g.records[0].as_mut().unwrap().proposal.actions[0].gas_limit = MAX_GAS_LIMIT_PER_BLOCK;
    assert!(!g.is_well_formed());

    let mut g = fresh();
    g.records[0].as_mut().unwrap().proposal.withdraw_percentage_defeated = 10_001;
    assert!(!g.is_well_formed());

    let mut g = fresh();
    let action = g.records[0].as_ref().unwrap().proposal.actions[0].clone();
    for _ in 0..4 {
        g.records[0].as_mut().unwrap().proposal.actions.push(action.clone());
    }
    assert!(!g.is_well_formed());
}

#[test]
fn tally_is_well_formed_when_power_stays_within_energy() {
    let votes = ProposalVotes {
        up_votes: 1,
        down_votes: 2,
        down_veto_votes: 3,
        abstain_votes: 4,
        quorum: 10,
    };
    assert!(votes.is_well_formed());
    assert!(!ProposalVotes { quorum: 9, ..votes }.is_well_formed());
    assert!(!ProposalVotes { up_votes: u128::MAX, quorum: u128::MAX, ..votes }.is_well_formed());
    assert!(ProposalVotes::default().is_well_formed());
    assert_eq!(ProposalVotes::default(), ProposalVotes::new());
}

#[test]
fn distinct_entries_are_recognised() {
    assert!(all_distinct(&vec![]));
    assert!(all_distinct(&vec![vec![1], vec![2], vec![1, 2]]));
    assert!(!all_distinct(&vec![vec![1], vec![2], vec![1]]));
    assert!(!all_distinct(&vec![vec![], vec![]]));
}

#[test]
fn errors_read_as_the_contract_words_them() {
    assert_eq!(GovernanceError::AlreadyVoted.message(), "Already voted for this proposal");
    assert_eq!(GovernanceError::NoActions.message(), "Proposal has no actions");
    assert_eq!(GovernanceError::TooManyActions.message(), "Exceeded max actions per proposal");
    assert_eq!(
        GovernanceError::ActionGasTooHigh.message(),
        "A single action cannot use more than the max gas limit per block"
    );
    assert_eq!(GovernanceError::ProposalNotFound.message(), "Proposal does not exist");
    assert_eq!(
        GovernanceError::NotProposer.message(),
        "Only original proposer may cancel a pending proposal"
    );
    assert_eq!(GovernanceError::CannotCancel.message(), "Action may not be cancelled");
    assert_eq!(
        GovernanceError::CannotWithdraw.message(),
        "You may not withdraw funds from this proposal!"
    );
    let all = [
        GovernanceError::InvalidPercentage,
        GovernanceError::CallerIsContract,
        GovernanceError::NoActions,
        GovernanceError::TooManyActions,
        GovernanceError::NotEnoughEnergy,
        GovernanceError::WrongTokenId,
        GovernanceError::NotEnoughFee,
        GovernanceError::ActionGasTooHigh,
        GovernanceError::TooMuchGas,
        GovernanceError::ProposalNotFound,
        GovernanceError::ProposalNotActive,
        GovernanceError::AlreadyVoted,
        GovernanceError::EnergyOverflow,
        GovernanceError::NotProposer,
        GovernanceError::CannotCancel,
        GovernanceError::CannotWithdraw,
    ];
    for (i, a) in all.iter().enumerate() {
        assert!(!a.message().is_empty());
        for b in all.iter().skip(i + 1) {
            assert_ne!(a.message(), b.message());
        }
    }
}
