use foundation::contract::{execute, instantiate, query};
use foundation::error::ContractError;
use foundation::expiration::{BlockInfo, Duration, Expiration};
use foundation::minting::{can_mint, mintable_block_height, MintableBlockHeightResp};
use foundation::msg::{
    ExecuteMsg, InstantiateMsg, ProposalType, QueryAnswer, QueryMsg, TokenMsg, Voter,
    VoterResponse,
};
use foundation::proposal::{Status, Vote};
use foundation::state::State;
use foundation::threshold::{Decimal, Threshold, ThresholdResponse, DECIMAL_FRACTIONAL};

fn mock_block() -> BlockInfo {
    BlockInfo { height: 12_345, time: 1_571_797_419_879_305_533 }
}

fn setup(voters: Vec<(&str, u64)>, threshold: Threshold) -> State {
    let msg = InstantiateMsg {
        cw20_address: "cw20_address".into(),
        max_voting_period: Duration::Height(10),
        voters: voters
            .into_iter()
            .map(|(a, w)| Voter { addr: a.to_string(), weight: w })
            .collect(),
        threshold,
    };
    let (state, _) = instantiate(msg).unwrap();
    state
}

fn propose_send(state: &mut State, env: &BlockInfo, sender: &str) -> u64 {
    let msg = ExecuteMsg::Propose {
        title: "title".to_string(),
        description: "description".to_string(),
        proposal_type: ProposalType::Send { to: "receiver".into(), amount: 100u128 },
        latest: None,
    };
    execute(state, env, &sender.to_string(), msg).unwrap();
    match query(state, env, QueryMsg::ListProposals { start_after: None, limit: None }).unwrap() {
        QueryAnswer::ProposalList(l) => l.proposals.last().unwrap().id,
        other => panic!("unexpected answer: {:?}", other),
    }
}

fn proposal_status(state: &State, env: &BlockInfo, id: u64) -> Status {
    match query(state, env, QueryMsg::Proposal { proposal_id: id }).unwrap() {
        QueryAnswer::Proposal(p) => p.status,
        other => panic!("unexpected answer: {:?}", other),
    }
}

#[test]
fn absolute_count_passes_at_threshold() {
    // three voters of weight one under an absolute count of two: the
    // proposer's implicit yes leaves the proposal open, one more yes
    // passes it without the third ballot, and execution succeeds
    // exactly once
    let env = mock_block();
    let mut state = setup(
        vec![("a", 1), ("b", 1), ("c", 1)],
        Threshold::AbsoluteCount { weight: 2 },
    );
    let id = propose_send(&mut state, &env, "a");
    assert_eq!(proposal_status(&state, &env, id), Status::Open);

    let vote_msg = ExecuteMsg::Vote { proposal_id: id, vote: Vote::Yes };
    execute(&mut state, &env, &"b".to_string(), vote_msg).unwrap();
    assert_eq!(proposal_status(&state, &env, id), Status::Passed);

    let res = execute(&mut state, &env, &"any".to_string(), ExecuteMsg::Execute {
        proposal_id: id,
    })
    .unwrap();
    assert_eq!(
        res.messages,
        vec![TokenMsg::Transfer {
            token_address: "cw20_address".to_string(),
            recipient: "receiver".to_string(),
            amount: 100u128,
        }]
    );
    assert_eq!(proposal_status(&state, &env, id), Status::Executed);

    // a repeat execution fails
    let res = execute(&mut state, &env, &"any".to_string(), ExecuteMsg::Execute {
        proposal_id: id,
    });
    assert_eq!(res, Err(ContractError::WrongExecuteStatus));
}

#[test]
fn percentage_stays_open_while_still_winnable() {
    // threshold of fifty-one percent over a total of three: one yes is
    // about a third, and after one no the remaining uncommitted third
    // could still push yes to two thirds, so the proposal stays open
    let env = mock_block();
    let mut state = setup(
        vec![("a", 1), ("b", 1), ("c", 1)],
        Threshold::AbsolutePercentage { percentage: Decimal::percent(51) },
    );
    let id = propose_send(&mut state, &env, "a");
    assert_eq!(proposal_status(&state, &env, id), Status::Open);

    execute(&mut state, &env, &"b".to_string(), ExecuteMsg::Vote {
        proposal_id: id,
        vote: Vote::No,
    })
    .unwrap();
    assert_eq!(proposal_status(&state, &env, id), Status::Open);

    // once the last voter also votes no, yes can never reach the mark
    execute(&mut state, &env, &"c".to_string(), ExecuteMsg::Vote {
        proposal_id: id,
        vote: Vote::No,
    })
    .unwrap();
    assert_eq!(proposal_status(&state, &env, id), Status::Rejected);
}

#[test]
fn percentage_passes_with_exact_rational_comparison() {
    // two of three is above fifty-one percent
    let env = mock_block();
    let mut state = setup(
        vec![("a", 1), ("b", 1), ("c", 1)],
        Threshold::AbsolutePercentage { percentage: Decimal::percent(51) },
    );
    let id = propose_send(&mut state, &env, "a");
    execute(&mut state, &env, &"b".to_string(), ExecuteMsg::Vote {
        proposal_id: id,
        vote: Vote::Yes,
    })
    .unwrap();
    assert_eq!(proposal_status(&state, &env, id), Status::Passed);
}

#[test]
fn pagination_over_six_proposals() {
    let env = mock_block();
    let mut state = setup(vec![("a", 1)], Threshold::AbsoluteCount { weight: 1 });
    for _ in 0..6 {
        propose_send(&mut state, &env, "a");
    }

    let res = query(&state, &env, QueryMsg::ListProposals {
        start_after: Some(3),
        limit: Some(2),
    })
    .unwrap();
    match res {
        QueryAnswer::ProposalList(l) => {
            let ids: Vec<u64> = l.proposals.iter().map(|p| p.id).collect();
            assert_eq!(ids, vec![4, 5]);
        },
        other => panic!("unexpected answer: {:?}", other),
    }

    let res = query(&state, &env, QueryMsg::ReverseProposals {
        start_before: Some(4),
        limit: None,
    })
    .unwrap();
    match res {
        QueryAnswer::ProposalList(l) => {
            let ids: Vec<u64> = l.proposals.iter().map(|p| p.id).collect();
            assert_eq!(ids, vec![3, 2, 1]);
        },
        other => panic!("unexpected answer: {:?}", other),
    }

    // the default page size is ten and the cap is thirty
    let res = query(&state, &env, QueryMsg::ListProposals { start_after: None, limit: None })
        .unwrap();
    match res {
        QueryAnswer::ProposalList(l) => {
            let ids: Vec<u64> = l.proposals.iter().map(|p| p.id).collect();
            assert_eq!(ids, vec![1, 2, 3, 4, 5, 6]);
        },
        other => panic!("unexpected answer: {:?}", other),
    }
}

#[test]
fn removing_last_voter_is_rejected() {
    // the policy on the last remaining voter: removal is refused
    // outright, so the total weight never reaches zero
    let env = mock_block();
    let mut state = setup(vec![("a", 1)], Threshold::AbsoluteCount { weight: 1 });
    let msg = ExecuteMsg::Propose {
        title: "title".to_string(),
        description: "description".to_string(),
        proposal_type: ProposalType::RemoveVoter { address: "a".into() },
        latest: None,
    };
    execute(&mut state, &env, &"a".to_string(), msg).unwrap();
    assert_eq!(proposal_status(&state, &env, 1), Status::Passed);

    let res = execute(&mut state, &env, &"any".to_string(), ExecuteMsg::Execute {
        proposal_id: 1,
    });
    assert_eq!(res, Err(ContractError::LastVoter));

    // the failed call left everything untouched
    let res = query(&state, &env, QueryMsg::Voter { address: "a".to_string() }).unwrap();
    assert_eq!(res, QueryAnswer::Voter(VoterResponse { weight: Some(1) }));
    let res = query(&state, &env, QueryMsg::Threshold).unwrap();
    assert_eq!(
        res,
        QueryAnswer::Threshold(ThresholdResponse::AbsoluteCount { weight: 1, total_weight: 1 })
    );
}

#[test]
fn late_member_cannot_vote_on_older_proposal() {
    // an account added after a proposal was created is no member of
    // that proposal's snapshot, and cannot cast a ballot on it even
    // while it is still open
    let env = mock_block();
    let mut state = setup(vec![("a", 1), ("b", 1)], Threshold::AbsoluteCount { weight: 2 });

    // an open proposal created before the membership change
    let open_id = propose_send(&mut state, &env, "a");

    // a second proposal adds account c, passes, and is executed
    let msg = ExecuteMsg::Propose {
        title: "title".to_string(),
        description: "description".to_string(),
        proposal_type: ProposalType::AddVoter { address: "c".into(), vote_weight: 1 },
        latest: None,
    };
    execute(&mut state, &env, &"a".to_string(), msg).unwrap();
    execute(&mut state, &env, &"b".to_string(), ExecuteMsg::Vote {
        proposal_id: 2,
        vote: Vote::Yes,
    })
    .unwrap();
    execute(&mut state, &env, &"any".to_string(), ExecuteMsg::Execute { proposal_id: 2 })
        .unwrap();
    let res = query(&state, &env, QueryMsg::Voter { address: "c".to_string() }).unwrap();
    assert_eq!(res, QueryAnswer::Voter(VoterResponse { weight: Some(1) }));

    // c is now a current voter, but not in the older snapshot
    assert_eq!(proposal_status(&state, &env, open_id), Status::Open);
    let res = execute(&mut state, &env, &"c".to_string(), ExecuteMsg::Vote {
        proposal_id: open_id,
        vote: Vote::Yes,
    });
    assert_eq!(res, Err(ContractError::Unauthorized));

    // a snapshot member can still vote
    let res = execute(&mut state, &env, &"b".to_string(), ExecuteMsg::Vote {
        proposal_id: open_id,
        vote: Vote::Yes,
    });
    assert!(res.is_ok());
}

#[test]
fn snapshots_survive_membership_changes() {
    // a proposal keeps the threshold and total weight captured at its
    // creation even after a later add-voter execution doubles the
    // group, while a proposal created afterwards sees the new total
    let env = mock_block();
    let mut state = setup(vec![("a", 1)], Threshold::AbsoluteCount { weight: 1 });
    let first = propose_send(&mut state, &env, "a");

    let msg = ExecuteMsg::Propose {
        title: "title".to_string(),
        description: "description".to_string(),
        proposal_type: ProposalType::AddVoter { address: "b".into(), vote_weight: 3 },
        latest: None,
    };
    execute(&mut state, &env, &"a".to_string(), msg).unwrap();
    execute(&mut state, &env, &"any".to_string(), ExecuteMsg::Execute { proposal_id: 2 })
        .unwrap();

    let second = propose_send(&mut state, &env, "a");
    let old_snapshot = match query(&state, &env, QueryMsg::Proposal { proposal_id: first })
        .unwrap()
    {
        QueryAnswer::Proposal(p) => p.threshold,
        other => panic!("unexpected answer: {:?}", other),
    };
    let new_snapshot = match query(&state, &env, QueryMsg::Proposal { proposal_id: second })
        .unwrap()
    {
        QueryAnswer::Proposal(p) => p.threshold,
        other => panic!("unexpected answer: {:?}", other),
    };
    assert_eq!(
        old_snapshot,
        ThresholdResponse::AbsoluteCount { weight: 1, total_weight: 1 }
    );
    assert_eq!(
        new_snapshot,
        ThresholdResponse::AbsoluteCount { weight: 1, total_weight: 4 }
    );
}

#[test]
fn add_voter_overwrites_and_keeps_total_consistent() {
    let env = mock_block();
    let mut state = setup(vec![("a", 1), ("b", 1)], Threshold::AbsoluteCount { weight: 1 });
    let msg = ExecuteMsg::Propose {
        title: "title".to_string(),
        description: "description".to_string(),
        proposal_type: ProposalType::AddVoter { address: "b".into(), vote_weight: 5 },
        latest: None,
    };
    execute(&mut state, &env, &"a".to_string(), msg).unwrap();
    execute(&mut state, &env, &"any".to_string(), ExecuteMsg::Execute { proposal_id: 1 })
        .unwrap();

    // a full overwrite, not an additive top-up: the total moves by the
    // difference between the old and the new weight
    let res = query(&state, &env, QueryMsg::Voter { address: "b".to_string() }).unwrap();
    assert_eq!(res, QueryAnswer::Voter(VoterResponse { weight: Some(5) }));
    let res = query(&state, &env, QueryMsg::Threshold).unwrap();
    assert_eq!(
        res,
        QueryAnswer::Threshold(ThresholdResponse::AbsoluteCount { weight: 1, total_weight: 6 })
    );
}

#[test]
fn instantiate_validation_errors() {
    let count_one = Threshold::AbsoluteCount { weight: 1 };

    let msg = InstantiateMsg {
        cw20_address: "cw20_address".into(),
        max_voting_period: Duration::Height(10),
        voters: vec![],
        threshold: count_one,
    };
    assert_eq!(instantiate(msg).err(), Some(ContractError::NoVoters));

    let msg = InstantiateMsg {
        cw20_address: "cw20_address".into(),
        max_voting_period: Duration::Height(10),
        voters: vec![Voter { addr: "a".into(), weight: 0 }],
        threshold: count_one,
    };
    assert_eq!(instantiate(msg).err(), Some(ContractError::InvalidVoteWeight));

    let msg = InstantiateMsg {
        cw20_address: "cw20_address".into(),
        max_voting_period: Duration::Height(10),
        voters: vec![
            Voter { addr: "a".into(), weight: 1 },
            Voter { addr: "a".into(), weight: 2 },
        ],
        threshold: count_one,
    };
    assert_eq!(instantiate(msg).err(), Some(ContractError::DuplicateVoter));

    let msg = InstantiateMsg {
        cw20_address: "cw20_address".into(),
        max_voting_period: Duration::Height(10),
        voters: vec![
            Voter { addr: "a".into(), weight: u64::MAX },
            Voter { addr: "b".into(), weight: 1 },
        ],
        threshold: count_one,
    };
    assert_eq!(instantiate(msg).err(), Some(ContractError::Overflow));

    let msg = InstantiateMsg {
        cw20_address: "cw20_address".into(),
        max_voting_period: Duration::Height(10),
        voters: vec![Voter { addr: "a".into(), weight: 1 }],
        threshold: Threshold::AbsoluteCount { weight: 0 },
    };
    assert_eq!(instantiate(msg).err(), Some(ContractError::ZeroWeight));

    let msg = InstantiateMsg {
        cw20_address: "cw20_address".into(),
        max_voting_period: Duration::Height(10),
        voters: vec![Voter { addr: "a".into(), weight: 1 }],
        threshold: Threshold::AbsoluteCount { weight: 5 },
    };
    assert_eq!(instantiate(msg).err(), Some(ContractError::UnreachableWeight));

    let msg = InstantiateMsg {
        cw20_address: "cw20_address".into(),
        max_voting_period: Duration::Height(10),
        voters: vec![Voter { addr: "a".into(), weight: 1 }],
        threshold: Threshold::AbsolutePercentage { percentage: Decimal::percent(40) },
    };
    assert_eq!(instantiate(msg).err(), Some(ContractError::InvalidThreshold));

    let msg = InstantiateMsg {
        cw20_address: "cw20_address".into(),
        max_voting_period: Duration::Height(10),
        voters: vec![Voter { addr: "a".into(), weight: 1 }],
        threshold: Threshold::AbsolutePercentage { percentage: Decimal::percent(101) },
    };
    assert_eq!(instantiate(msg).err(), Some(ContractError::InvalidThreshold));
}

#[test]
fn lifecycle_errors() {
    let env = mock_block();
    let mut state = setup(vec![("a", 1), ("b", 1)], Threshold::AbsoluteCount { weight: 2 });

    // unknown proposal
    let res = execute(&mut state, &env, &"a".to_string(), ExecuteMsg::Vote {
        proposal_id: 99,
        vote: Vote::Yes,
    });
    assert_eq!(res, Err(ContractError::NoSuchProposal));
    let res = execute(&mut state, &env, &"a".to_string(), ExecuteMsg::Execute {
        proposal_id: 0,
    });
    assert_eq!(res, Err(ContractError::NoSuchProposal));

    let id = propose_send(&mut state, &env, "a");

    // the proposer cannot vote twice
    let res = execute(&mut state, &env, &"a".to_string(), ExecuteMsg::Vote {
        proposal_id: id,
        vote: Vote::Yes,
    });
    assert_eq!(res, Err(ContractError::AlreadyVoted));

    // an open proposal cannot be executed or closed yet
    let res = execute(&mut state, &env, &"any".to_string(), ExecuteMsg::Execute {
        proposal_id: id,
    });
    assert_eq!(res, Err(ContractError::WrongExecuteStatus));
    let res = execute(&mut state, &env, &"any".to_string(), ExecuteMsg::Close {
        proposal_id: id,
    });
    assert_eq!(res, Err(ContractError::NotExpired));

    // proposing a zero-weight addition is refused
    let res = execute(&mut state, &env, &"a".to_string(), ExecuteMsg::Propose {
        title: "title".to_string(),
        description: "description".to_string(),
        proposal_type: ProposalType::AddVoter { address: "c".into(), vote_weight: 0 },
        latest: None,
    });
    assert_eq!(res, Err(ContractError::InvalidVoteWeight));

    // a time expiration cannot be compared with a height-based period
    let res = execute(&mut state, &env, &"a".to_string(), ExecuteMsg::Propose {
        title: "title".to_string(),
        description: "description".to_string(),
        proposal_type: ProposalType::Send { to: "receiver".into(), amount: 1u128 },
        latest: Some(Expiration::AtTime(env.time + 1)),
    });
    assert_eq!(res, Err(ContractError::WrongExpiration));

    // removing an unknown voter fails at execution
    execute(&mut state, &env, &"a".to_string(), ExecuteMsg::Propose {
        title: "title".to_string(),
        description: "description".to_string(),
        proposal_type: ProposalType::RemoveVoter { address: "nobody".into() },
        latest: None,
    })
    .unwrap();
    let remove_id = 2;
    execute(&mut state, &env, &"b".to_string(), ExecuteMsg::Vote {
        proposal_id: remove_id,
        vote: Vote::Yes,
    })
    .unwrap();
    let res = execute(&mut state, &env, &"any".to_string(), ExecuteMsg::Execute {
        proposal_id: remove_id,
    });
    assert_eq!(res, Err(ContractError::VoterNotExist));
}

#[test]
fn expiration_and_close() {
    let env = mock_block();
    let mut state = setup(vec![("a", 1), ("b", 1)], Threshold::AbsoluteCount { weight: 2 });

    // an explicit expiration below the maximum is kept as requested
    execute(&mut state, &env, &"a".to_string(), ExecuteMsg::Propose {
        title: "title".to_string(),
        description: "description".to_string(),
        proposal_type: ProposalType::Send { to: "receiver".into(), amount: 1u128 },
        latest: Some(Expiration::AtHeight(env.height + 3)),
    })
    .unwrap();
    match query(&state, &env, QueryMsg::Proposal { proposal_id: 1 }).unwrap() {
        QueryAnswer::Proposal(p) => assert_eq!(p.expires, Expiration::AtHeight(env.height + 3)),
        other => panic!("unexpected answer: {:?}", other),
    }

    // one above the maximum is clamped to it
    execute(&mut state, &env, &"a".to_string(), ExecuteMsg::Propose {
        title: "title".to_string(),
        description: "description".to_string(),
        proposal_type: ProposalType::Send { to: "receiver".into(), amount: 1u128 },
        latest: Some(Expiration::Never),
    })
    .unwrap();
    match query(&state, &env, QueryMsg::Proposal { proposal_id: 2 }).unwrap() {
        QueryAnswer::Proposal(p) => assert_eq!(p.expires, Expiration::AtHeight(env.height + 10)),
        other => panic!("unexpected answer: {:?}", other),
    }

    // past the expiration a ballot is refused, the status derives to
    // rejected, and closing persists that
    let later = BlockInfo { height: env.height + 5, time: env.time };
    let res = execute(&mut state, &later, &"b".to_string(), ExecuteMsg::Vote {
        proposal_id: 1,
        vote: Vote::Yes,
    });
    assert_eq!(res, Err(ContractError::Expired));
    assert_eq!(proposal_status(&state, &later, 1), Status::Rejected);
    let res = execute(&mut state, &later, &"any".to_string(), ExecuteMsg::Close {
        proposal_id: 1,
    });
    assert!(res.is_ok());
    assert_eq!(proposal_status(&state, &later, 1), Status::Rejected);

    // a second close is refused: the stored status is terminal now
    let res = execute(&mut state, &later, &"any".to_string(), ExecuteMsg::Close {
        proposal_id: 1,
    });
    assert_eq!(res, Err(ContractError::WrongCloseStatus));

    // voting on the closed proposal is refused too
    let res = execute(&mut state, &later, &"b".to_string(), ExecuteMsg::Vote {
        proposal_id: 1,
        vote: Vote::Yes,
    });
    assert_eq!(res, Err(ContractError::NotOpen));
}

#[test]
fn voters_listed_in_ascending_order_with_cursor() {
    let env = mock_block();
    // given out of order, the ledger keeps accounts sorted
    let state = setup(
        vec![("carol", 1), ("alice", 2), ("bob", 3)],
        Threshold::AbsoluteCount { weight: 1 },
    );
    let names = |answer: QueryAnswer| -> Vec<String> {
        match answer {
            QueryAnswer::VoterList(l) => l.voters.iter().map(|v| v.addr.clone()).collect(),
            other => panic!("unexpected answer: {:?}", other),
        }
    };
    let res = query(&state, &env, QueryMsg::ListVoters { start_after: None, limit: None })
        .unwrap();
    assert_eq!(names(res), vec!["alice", "bob", "carol"]);

    let res = query(&state, &env, QueryMsg::ListVoters {
        start_after: Some("alice".to_string()),
        limit: None,
    })
    .unwrap();
    assert_eq!(names(res), vec!["bob", "carol"]);

    let res = query(&state, &env, QueryMsg::ListVoters {
        start_after: Some("alice".to_string()),
        limit: Some(1),
    })
    .unwrap();
    assert_eq!(names(res), vec!["bob"]);
}

#[test]
fn votes_listed_in_ascending_order_with_cursor() {
    let env = mock_block();
    let mut state = setup(
        vec![("carol", 1), ("alice", 1), ("bob", 1)],
        Threshold::AbsoluteCount { weight: 3 },
    );
    let id = propose_send(&mut state, &env, "carol");
    execute(&mut state, &env, &"bob".to_string(), ExecuteMsg::Vote {
        proposal_id: id,
        vote: Vote::Yes,
    })
    .unwrap();
    execute(&mut state, &env, &"alice".to_string(), ExecuteMsg::Vote {
        proposal_id: id,
        vote: Vote::Abstain,
    })
    .unwrap();

    let res = query(&state, &env, QueryMsg::ListVotes {
        proposal_id: id,
        start_after: None,
        limit: None,
    })
    .unwrap();
    match res {
        QueryAnswer::VoteList(l) => {
            let voters: Vec<String> = l.votes.iter().map(|v| v.voter.clone()).collect();
            assert_eq!(voters, vec!["alice", "bob", "carol"]);
            assert_eq!(l.votes[0].vote, Vote::Abstain);
            assert_eq!(l.votes[1].vote, Vote::Yes);
            assert_eq!(l.votes[2].vote, Vote::Yes);
        },
        other => panic!("unexpected answer: {:?}", other),
    }

    let res = query(&state, &env, QueryMsg::ListVotes {
        proposal_id: id,
        start_after: Some("alice".to_string()),
        limit: Some(1),
    })
    .unwrap();
    match res {
        QueryAnswer::VoteList(l) => {
            assert_eq!(l.votes.len(), 1);
            assert_eq!(l.votes[0].voter, "bob".to_string());
        },
        other => panic!("unexpected answer: {:?}", other),
    }
}

#[test]
fn decimal_percent_formula() {
    assert_eq!(Decimal::percent(51).atomics, 510_000_000_000_000_000u128);
    assert_eq!(Decimal::percent(100).atomics, DECIMAL_FRACTIONAL);
    assert_eq!(Decimal::one().atomics, DECIMAL_FRACTIONAL);
}

#[test]
fn minting_window_formula() {
    // a thirty-day window at one block every five seconds
    let start = mock_block().height;
    let resp = MintableBlockHeightResp {
        mintable_block_height: mintable_block_height(start, 30).unwrap(),
    };
    assert_eq!(resp.mintable_block_height, start + 30 * 17_280);
    assert!(can_mint(start, resp.mintable_block_height));
    assert!(can_mint(resp.mintable_block_height, resp.mintable_block_height));
    assert!(!can_mint(resp.mintable_block_height + 1, resp.mintable_block_height));
    assert_eq!(mintable_block_height(u64::MAX, 1), None);
}
