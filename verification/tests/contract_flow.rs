use foundation::contract::{execute, instantiate, query};
use foundation::expiration::{BlockInfo, Duration, Expiration};
use foundation::msg::{
    ExecuteMsg, InstantiateMsg, ProposalType, QueryAnswer, QueryMsg, Voter, VoterDetail,
    VoterListResponse, VoterResponse,
};
use foundation::proposal::{Status, Vote};
use foundation::threshold::{Decimal, Threshold, ThresholdResponse};

fn mock_block() -> BlockInfo {
    BlockInfo { height: 12_345, time: 1_571_797_419_879_305_533 }
}

#[test]
fn proper_instantiate() {
    let env = mock_block();

    let voters = vec![
        Voter { addr: "voter1".into(), weight: 1 },
        Voter { addr: "voter2".into(), weight: 2 },
    ];
    let threshold_percentage = 60;
    let msg = InstantiateMsg {
        cw20_address: "cw20_address".into(),
        max_voting_period: Duration::Height(10),
        voters: voters.clone(),
        threshold: Threshold::AbsolutePercentage {
            percentage: Decimal::percent(threshold_percentage),
        },
    };
    let (state, res) = instantiate(msg).unwrap();
    assert_eq!(0, res.messages.len());

    // check the state
    let query_threshold_msg = QueryMsg::Threshold;
    let res = query(&state, &env, query_threshold_msg).unwrap();
    assert_eq!(
        res,
        QueryAnswer::Threshold(ThresholdResponse::AbsolutePercentage {
            percentage: Decimal::percent(threshold_percentage),
            total_weight: voters.iter().map(|v| v.weight).sum(),
        })
    );

    let query_voters_msg = QueryMsg::ListVoters { start_after: None, limit: None };
    let res = query(&state, &env, query_voters_msg).unwrap();
    assert_eq!(
        res,
        QueryAnswer::VoterList(VoterListResponse {
            voters: voters
                .iter()
                .map(|v| VoterDetail { addr: v.addr.clone(), weight: v.weight })
                .collect()
        })
    );
}

#[test]
fn only_voter_propose() {
    let env = mock_block();

    let max_voting_period = 10;
    let threshold_percentage = 100;
    let voters = vec![
        Voter { addr: "voter1".into(), weight: 1 },
        Voter { addr: "voter2".into(), weight: 1 },
    ];
    let msg = InstantiateMsg {
        cw20_address: "cw20_address".into(),
        max_voting_period: Duration::Height(max_voting_period),
        voters: voters.clone(),
        threshold: Threshold::AbsolutePercentage {
            percentage: Decimal::percent(threshold_percentage),
        },
    };
    let (mut state, _) = instantiate(msg).unwrap();

    let proposal_title = "title";
    let proposal_description = "description";
    let proposal_type = ProposalType::AddVoter { address: "new_voter".into(), vote_weight: 1 };
    let propose_msg = ExecuteMsg::Propose {
        title: proposal_title.to_string(),
        description: proposal_description.to_string(),
        proposal_type: proposal_type.clone(),
        latest: None,
    };

    let invalid_sender = "invalid".to_string();
    let res = execute(&mut state, &env, &invalid_sender, propose_msg.clone());
    assert!(res.is_err());

    let voter1 = voters[0].addr.clone();
    let res = execute(&mut state, &env, &voter1, propose_msg.clone());
    assert!(res.is_ok());

    // query the proposal state
    let query_list_proposals_msg = QueryMsg::ListProposals { start_after: None, limit: None };
    let res = query(&state, &env, query_list_proposals_msg).unwrap();
    match res {
        QueryAnswer::ProposalList(list) => assert_eq!(list.proposals.len(), 1),
        other => panic!("unexpected answer: {:?}", other),
    }

    let query_proposal_msg = QueryMsg::Proposal { proposal_id: 1 };
    let res = query(&state, &env, query_proposal_msg).unwrap();
    match res {
        QueryAnswer::Proposal(p) => {
            assert_eq!(p.id, 1);
            assert_eq!(p.title, proposal_title.to_string());
            assert_eq!(p.description, proposal_description.to_string());
            assert_eq!(p.proposal_type, proposal_type.clone());
            assert_eq!(p.status, Status::Open);
            assert_eq!(p.expires, Expiration::AtHeight(env.height + max_voting_period));
            assert_eq!(
                p.threshold,
                ThresholdResponse::AbsolutePercentage {
                    percentage: Decimal::percent(threshold_percentage),
                    total_weight: voters.iter().map(|v| v.weight).sum(),
                }
            );
            assert_eq!(p.proposer, voters[0].addr.clone());
            assert_eq!(p.deposit, None);
        },
        other => panic!("unexpected answer: {:?}", other),
    }
}

#[test]
fn only_voter_vote() {
    let env = mock_block();

    let max_voting_period = 10;
    let threshold_percentage = 100;
    let voters = vec![
        Voter { addr: "voter1".into(), weight: 1 },
        Voter { addr: "voter2".into(), weight: 1 },
    ];
    let msg = InstantiateMsg {
        cw20_address: "cw20_address".into(),
        max_voting_period: Duration::Height(max_voting_period),
        voters: voters.clone(),
        threshold: Threshold::AbsolutePercentage {
            percentage: Decimal::percent(threshold_percentage),
        },
    };
    let (mut state, _) = instantiate(msg).unwrap();

    let proposal_title = "title";
    let proposal_description = "description";
    let proposal_type = ProposalType::AddVoter { address: "new_voter".into(), vote_weight: 1 };
    let propose_msg = ExecuteMsg::Propose {
        title: proposal_title.to_string(),
        description: proposal_description.to_string(),
        proposal_type: proposal_type.clone(),
        latest: None,
    };
    let voter1 = voters[0].addr.clone();
    execute(&mut state, &env, &voter1, propose_msg.clone()).unwrap();

    let proposal_id = 1;
    let vote = Vote::Yes;
    let vote_msg = ExecuteMsg::Vote { proposal_id, vote };

    let invalid_sender = "invalid".to_string();
    let res = execute(&mut state, &env, &invalid_sender, vote_msg.clone());
    assert!(res.is_err());

    let voter2 = voters[1].addr.clone();
    let res = execute(&mut state, &env, &voter2, vote_msg.clone());
    assert!(res.is_ok());

    // check the state
    let query_list_votes_msg =
        QueryMsg::ListVotes { proposal_id, start_after: None, limit: None };
    let res = query(&state, &env, query_list_votes_msg).unwrap();
    match res {
        QueryAnswer::VoteList(list) => assert_eq!(list.votes.len(), 2), // of voter1 and voter2
        other => panic!("unexpected answer: {:?}", other),
    }

    let query_vote_msg = QueryMsg::Vote { proposal_id, voter: voters[1].addr.to_string() };
    let res = query(&state, &env, query_vote_msg).unwrap();
    match res {
        QueryAnswer::Vote(v) => {
            assert!(v.vote.is_some());
            let info = v.vote.unwrap();
            assert_eq!(info.proposal_id, proposal_id);
            assert_eq!(info.voter, voters[1].addr.to_string());
            assert_eq!(info.vote, vote);
            assert_eq!(info.weight, voters[1].weight);
        },
        other => panic!("unexpected answer: {:?}", other),
    }
}

#[test]
fn execute_after_proposal_passed() {
    let env = mock_block();

    let max_voting_period = 10;
    let threshold_percentage = 100;
    let voters = vec![Voter { addr: "voter1".into(), weight: 1 }];
    let msg = InstantiateMsg {
        cw20_address: "cw20_address".into(),
        max_voting_period: Duration::Height(max_voting_period),
        voters: voters.clone(),
        threshold: Threshold::AbsolutePercentage {
            percentage: Decimal::percent(threshold_percentage),
        },
    };
    let (mut state, _) = instantiate(msg).unwrap();

    let propose_msg = ExecuteMsg::Propose {
        title: "title".to_string(),
        description: "description".to_string(),
        proposal_type: ProposalType::AddVoter { address: "new_voter".into(), vote_weight: 1 },
        latest: None,
    };
    let voter1 = voters[0].addr.clone();
    execute(&mut state, &env, &voter1, propose_msg.clone()).unwrap();

    let proposal_id = 1;
    let execute_proposal_msg = ExecuteMsg::Execute { proposal_id };
    let any_sender = "any".to_string();
    let res = execute(&mut state, &env, &any_sender, execute_proposal_msg);
    assert!(res.is_ok());
}

#[test]
fn add_voter_after_proposal_passed() {
    let env = mock_block();

    let max_voting_period = 10;
    let threshold_percentage = 100;
    let voters = vec![Voter { addr: "voter1".into(), weight: 1 }];
    let msg = InstantiateMsg {
        cw20_address: "cw20_address".into(),
        max_voting_period: Duration::Height(max_voting_period),
        voters: voters.clone(),
        threshold: Threshold::AbsolutePercentage {
            percentage: Decimal::percent(threshold_percentage),
        },
    };
    let (mut state, _) = instantiate(msg).unwrap();

    let new_voter = "new_voter";
    let proposal_type = ProposalType::AddVoter { address: new_voter.into(), vote_weight: 1 };
    let propose_msg = ExecuteMsg::Propose {
        title: "title".to_string(),
        description: "description".to_string(),
        proposal_type: proposal_type.clone(),
        latest: None,
    };
    let voter1 = voters[0].addr.clone();
    execute(&mut state, &env, &voter1, propose_msg.clone()).unwrap();

    let proposal_id = 1;
    let execute_proposal_msg = ExecuteMsg::Execute { proposal_id };
    let any_sender = "any".to_string();
    let res = execute(&mut state, &env, &any_sender, execute_proposal_msg);
    assert!(res.is_ok());

    // check the state
    let query_voter_msg = QueryMsg::Voter { address: new_voter.to_string() };
    let res = query(&state, &env, query_voter_msg).unwrap();
    assert_eq!(res, QueryAnswer::Voter(VoterResponse { weight: Some(1) }));
}

#[test]
fn remove_voter_after_proposal_passed() {
    let env = mock_block();

    let max_voting_period = 10;
    let threshold_percentage = 50;
    let voters = vec![
        Voter { addr: "voter1".into(), weight: 1 },
        Voter { addr: "voter2".into(), weight: 1 },
    ];
    let total_weight = voters.iter().map(|v| v.weight).sum::<u64>();
    let msg = InstantiateMsg {
        cw20_address: "cw20_address".into(),
        max_voting_period: Duration::Height(max_voting_period),
        voters: voters.clone(),
        threshold: Threshold::AbsolutePercentage {
            percentage: Decimal::percent(threshold_percentage),
        },
    };
    let (mut state, _) = instantiate(msg).unwrap();

    let remove_voter = voters[1].clone();
    let proposal_type = ProposalType::RemoveVoter { address: remove_voter.addr.clone() };
    let propose_msg = ExecuteMsg::Propose {
        title: "title".to_string(),
        description: "description".to_string(),
        proposal_type: proposal_type.clone(),
        latest: None,
    };
    let voter1 = voters[0].addr.clone();
    execute(&mut state, &env, &voter1, propose_msg.clone()).unwrap();

    let proposal_id = 1;
    let execute_proposal_msg = ExecuteMsg::Execute { proposal_id };
    let any_sender = "any".to_string();
    let res = execute(&mut state, &env, &any_sender, execute_proposal_msg);
    assert!(res.is_ok());

    // check the state
    let query_voter_msg = QueryMsg::Voter { address: remove_voter.addr.to_string() };
    let res = query(&state, &env, query_voter_msg).unwrap();
    assert_eq!(res, QueryAnswer::Voter(VoterResponse { weight: None }));

    let query_vote_list_msg = QueryMsg::ListVoters { start_after: None, limit: None };
    let res = query(&state, &env, query_vote_list_msg).unwrap();
    assert_eq!(
        res,
        QueryAnswer::VoterList(VoterListResponse {
            voters: vec![VoterDetail { addr: voters[0].addr.clone(), weight: voters[0].weight }],
        })
    );

    let query_threshold_msg = QueryMsg::Threshold;
    let res = query(&state, &env, query_threshold_msg).unwrap();
    assert_eq!(
        res,
        QueryAnswer::Threshold(ThresholdResponse::AbsolutePercentage {
            percentage: Decimal::percent(threshold_percentage),
            total_weight: total_weight - remove_voter.weight,
        })
    );
}

#[test]
fn send_cw20_after_proposal_passed() {
    let env = mock_block();

    let max_voting_period = 10;
    let threshold_percentage = 100;
    let voters = vec![Voter { addr: "voter1".into(), weight: 1 }];
    let msg = InstantiateMsg {
        cw20_address: "cw20_address".into(),
        max_voting_period: Duration::Height(max_voting_period),
        voters: voters.clone(),
        threshold: Threshold::AbsolutePercentage {
            percentage: Decimal::percent(threshold_percentage),
        },
    };
    let (mut state, _) = instantiate(msg).unwrap();

    let receiver = "receiver";
    let proposal_type = ProposalType::Send { to: receiver.into(), amount: 100u128 };
    let propose_msg = ExecuteMsg::Propose {
        title: "title".to_string(),
        description: "description".to_string(),
        proposal_type: proposal_type.clone(),
        latest: None,
    };
    let voter1 = voters[0].addr.clone();
    execute(&mut state, &env, &voter1, propose_msg.clone()).unwrap();

    let proposal_id = 1;
    let execute_proposal_msg = ExecuteMsg::Execute { proposal_id };
    let any_sender = "any".to_string();
    let res = execute(&mut state, &env, &any_sender, execute_proposal_msg);
    assert!(res.is_ok());
}
