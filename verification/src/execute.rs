//! The governance engine: proposal creation, ballot casting, one-shot
//! execution of approved actions, and administrative closing.
//!
//! Each entry point either returns an error and leaves the state
//! exactly as it was, or applies all of its writes together. What each
//! one does is stated by a transition predicate relating the state
//! before the call, the state after it, and the result.

use vstd::prelude::*;
use crate::error::ContractError;
use crate::expiration::{
    spec_after, spec_cmp_expiration, spec_is_expired, BlockInfo, Expiration, ExpirationCmp,
};
use crate::msg::{
    result_view, Event, EventView, ProposalType, ProposalTypeView, Response, ResponseView,
    TokenMsg, TokenMsgView, Voter,
};
use crate::proposal::{
    ballot_for, ballots_sorted, find_ballot, has_ballot, insert_ballot, lemma_tally_singleton,
    spec_current_status, spec_tally, spec_threshold_decided, Ballot, BallotView, Proposal,
    ProposalView, Status, Vote, Votes,
};
use crate::msg::VoterView;
use crate::state::{clone_voters, proposal_at, state_wf, valid_proposal_id, Config, State, StateView};
use crate::voters::{
    delete_voter, find_voter, is_member, lemma_member_weight_at, lemma_sum_at_least_entry,
    member_weight, set_voter, sum_weights, voters_sorted,
};

verus! {

/// Whether the tally can absorb a ballot of weight `w` for choice `v`
/// without leaving the machine range.
pub open spec fn spec_vote_fits(votes: Votes, v: Vote, w: u64) -> bool {
    match v {
        Vote::Yes => votes.yes + w <= u64::MAX,
        Vote::No => votes.no + w <= u64::MAX,
        Vote::Abstain => votes.abstain + w <= u64::MAX,
        Vote::Veto => votes.veto + w <= u64::MAX,
    }
}

/// The tally after a ballot of weight `w` for choice `v` (meaningful
/// only when `spec_vote_fits`).
pub open spec fn spec_add_vote(votes: Votes, v: Vote, w: u64) -> Votes {
    match v {
        Vote::Yes => Votes { yes: (votes.yes + w) as u64, ..votes },
        Vote::No => Votes { no: (votes.no + w) as u64, ..votes },
        Vote::Abstain => Votes { abstain: (votes.abstain + w) as u64, ..votes },
        Vote::Veto => Votes { veto: (votes.veto + w) as u64, ..votes },
    }
}

/// The expiration a proposal gets when the caller requested `latest`
/// against a maximum of `maxe`: the maximum when nothing or something
/// later was requested, the request itself otherwise, and `None` when
/// the two cannot be compared.
pub open spec fn spec_effective_expiration(latest: Option<Expiration>, maxe: Expiration) -> Option<
    Expiration,
> {
    let e = match latest {
        Some(e) => e,
        None => maxe,
    };
    match spec_cmp_expiration(e, maxe) {
        ExpirationCmp::Incomparable => None,
        ExpirationCmp::Greater => Some(maxe),
        _ => Some(e),
    }
}

/// The proposal that `propose` writes, before its status is derived:
/// snapshots of the current rule, total weight and membership, and the
/// proposer's implicit yes ballot at the proposer's current weight `w`.
pub open spec fn spec_new_proposal_base(
    pre: StateView,
    block: BlockInfo,
    sender: Seq<char>,
    w: u64,
    title: Seq<char>,
    description: Seq<char>,
    action: ProposalTypeView,
    expires: Expiration,
) -> ProposalView {
    ProposalView {
        title,
        description,
        proposer: sender,
        start_height: block.height,
        expires,
        proposal_type: action,
        status: Status::Open,
        threshold: pre.config.threshold,
        total_weight: pre.config.total_weight,
        votes: Votes { yes: w, no: 0, abstain: 0, veto: 0 },
        deposit: None,
        ballots: seq![BallotView { voter: sender, vote: Vote::Yes, weight: w }],
        voters: pre.voters,
    }
}

/// The proposal that `propose` writes: the base above with the status
/// derived once right after creation; this covers the case where the
/// proposer's weight alone already meets the threshold.
pub open spec fn spec_new_proposal(
    pre: StateView,
    block: BlockInfo,
    sender: Seq<char>,
    w: u64,
    title: Seq<char>,
    description: Seq<char>,
    action: ProposalTypeView,
    expires: Expiration,
) -> ProposalView {
    let base = spec_new_proposal_base(pre, block, sender, w, title, description, action, expires);
    ProposalView { status: spec_current_status(base, block), ..base }
}

/// What `propose` does: only a current voter may create a proposal; an
/// add-voter action must carry a positive weight; the requested
/// expiration must be comparable with the maximum voting period and is
/// clamped to it; on success a new proposal is appended under the next
/// sequential identifier, holding the proposer's implicit yes ballot.
pub open spec fn propose_transition(
    pre: StateView,
    block: BlockInfo,
    sender: Seq<char>,
    title: Seq<char>,
    description: Seq<char>,
    action: ProposalTypeView,
    latest: Option<Expiration>,
    post: StateView,
    r: Result<ResponseView, ContractError>,
) -> bool {
    if !is_member(pre.voters, sender) {
        post == pre && r == Err::<ResponseView, ContractError>(ContractError::Unauthorized)
    } else if action matches ProposalTypeView::AddVoter { vote_weight, .. } && vote_weight == 0 {
        post == pre && r == Err::<ResponseView, ContractError>(ContractError::InvalidVoteWeight)
    } else {
        match spec_after(pre.config.max_voting_period, block) {
            None => post == pre && r == Err::<ResponseView, ContractError>(
                ContractError::Overflow,
            ),
            Some(maxe) => match spec_effective_expiration(latest, maxe) {
                None => post == pre && r == Err::<ResponseView, ContractError>(
                    ContractError::WrongExpiration,
                ),
                Some(expires) => {
                    let w = member_weight(pre.voters, sender);
                    let prop = spec_new_proposal(
                        pre,
                        block,
                        sender,
                        w,
                        title,
                        description,
                        action,
                        expires,
                    );
                    let id = (pre.proposals.len() + 1) as u64;
                    post == StateView { proposals: pre.proposals.push(prop), ..pre } && r == Ok::<
                        ResponseView,
                        ContractError,
                    >(
                        ResponseView {
                            messages: Seq::empty(),
                            events: seq![
                                EventView::Proposed {
                                    proposal_id: id,
                                    proposer: sender,
                                    status: prop.status,
                                },
                            ],
                        },
                    )
                },
            },
        }
    }
}

/// Creates a proposal for the given typed action with an implicit yes
/// ballot from the proposer.
pub fn propose(
    state: &mut State,
    block: &BlockInfo,
    sender: &String,
    title: String,
    description: String,
    proposal_type: ProposalType,
    latest: Option<Expiration>,
) -> (r: Result<Response, ContractError>)
    requires
        state_wf(old(state).deep_view()),
        old(state).proposals.len() < u64::MAX,
    ensures
        state_wf(final(state).deep_view()),
        propose_transition(
            old(state).deep_view(),
            *block,
            sender@,
            title@,
            description@,
            proposal_type.deep_view(),
            latest,
            final(state).deep_view(),
            result_view(r),
        ),
{
    let ghost pre = old(state).deep_view();
    let ghost title_v = title@;
    let ghost description_v = description@;
    let ghost action_v = proposal_type.deep_view();
    // only members of the group can create a proposal
    let vote_power: u64 = match find_voter(&state.voters, sender) {
        Some(i) => {
            proof {
                lemma_member_weight_at(pre.voters, i as int);
            }
            state.voters[i].weight
        },
        None => {
            return Err(ContractError::Unauthorized);
        },
    };
    // an added voter must carry a positive weight
    if let ProposalType::AddVoter { vote_weight, .. } = &proposal_type {
        if *vote_weight == 0 {
            return Err(ContractError::InvalidVoteWeight);
        }
    }
    // the maximum voting period is also the default expiration
    let max_expires = match state.config.max_voting_period.after(block) {
        Some(e) => e,
        None => {
            return Err(ContractError::Overflow);
        },
    };
    let mut expires = match latest {
        Some(e) => e,
        None => max_expires,
    };
    match expires.cmp_with(&max_expires) {
        ExpirationCmp::Incomparable => {
            return Err(ContractError::WrongExpiration);
        },
        ExpirationCmp::Greater => {
            expires = max_expires;
        },
        _ => {},
    }
    let snapshot_voters = clone_voters(&state.voters);
    let first_ballot = Ballot { voter: sender.clone(), vote: Vote::Yes, weight: vote_power };
    let ghost bv = first_ballot.deep_view();
    let mut prop = Proposal {
        title,
        description,
        proposer: sender.clone(),
        start_height: block.height,
        expires,
        proposal_type,
        status: Status::Open,
        threshold: state.config.threshold,
        total_weight: state.config.total_weight,
        votes: Votes::yes_of(vote_power),
        deposit: None,
        ballots: vec![first_ballot],
        voters: snapshot_voters,
    };
    let ghost base = spec_new_proposal_base(
        pre,
        *block,
        sender@,
        vote_power,
        title_v,
        description_v,
        action_v,
        expires,
    );
    proof {
        lemma_tally_singleton(bv);
        assert(prop.ballots.deep_view() =~= seq![bv]);
        assert(prop.deep_view() =~~= base);
    }
    prop.update_status(block);
    let id = state.proposals.len() as u64 + 1;
    let status = prop.status;
    let ghost expected = spec_new_proposal(
        pre,
        *block,
        sender@,
        vote_power,
        title_v,
        description_v,
        action_v,
        expires,
    );
    proof {
        assert(prop.deep_view() =~~= expected);
    }
    state.proposals.push(prop);
    proof {
        assert(state.deep_view() =~~= (StateView { proposals: pre.proposals.push(expected), ..pre }));
    }
    let resp = Response {
        messages: Vec::new(),
        events: vec![
            Event::Proposed { proposal_id: id, proposer: sender.clone(), status },
        ],
    };
    proof {
        assert(resp.deep_view() =~~= (ResponseView {
            messages: Seq::empty(),
            events: seq![
                EventView::Proposed { proposal_id: id, proposer: sender@, status: expected.status },
            ],
        }));
    }
    Ok(resp)
}

/// How a proposal looks after account `sender` cast a ballot of weight
/// `w` for choice `v` on it: one more ballot, recorded for `sender`
/// with exactly that choice and weight, every other account's ballot
/// untouched, the tally increased on the chosen bucket, the status
/// re-derived, and everything else unchanged. A sorted ballot list with
/// these properties is unique.
pub open spec fn is_voted_proposal(
    p: ProposalView,
    q: ProposalView,
    sender: Seq<char>,
    v: Vote,
    w: u64,
    block: BlockInfo,
) -> bool {
    &&& q == ProposalView {
        votes: spec_add_vote(p.votes, v, w),
        status: spec_current_status(
            ProposalView { votes: spec_add_vote(p.votes, v, w), ..p },
            block,
        ),
        ballots: q.ballots,
        ..p
    }
    &&& q.ballots.len() == p.ballots.len() + 1
    &&& ballots_sorted(q.ballots)
    &&& has_ballot(q.ballots, sender)
    &&& ballot_for(q.ballots, sender) == BallotView { voter: sender, vote: v, weight: w }
    &&& forall|a: Seq<char>| a != sender ==> #[trigger] has_ballot(q.ballots, a) == has_ballot(
        p.ballots,
        a,
    )
    &&& forall|a: Seq<char>| a != sender && has_ballot(p.ballots, a)
        ==> #[trigger] ballot_for(q.ballots, a) == ballot_for(p.ballots, a)
}

/// What `vote` does: only a current voter who was also a member of the
/// proposal's creation-time snapshot may cast a ballot; the proposal
/// must still be undecided by its tally and stored status, must not
/// have expired, and must not already hold a ballot from the caller.
/// On success a ballot at the caller's current weight is recorded and
/// the status re-derived.
pub open spec fn vote_transition(
    pre: StateView,
    block: BlockInfo,
    sender: Seq<char>,
    proposal_id: u64,
    v: Vote,
    post: StateView,
    r: Result<ResponseView, ContractError>,
) -> bool {
    if !is_member(pre.voters, sender) {
        post == pre && r == Err::<ResponseView, ContractError>(ContractError::Unauthorized)
    } else if !valid_proposal_id(pre, proposal_id) {
        post == pre && r == Err::<ResponseView, ContractError>(ContractError::NoSuchProposal)
    } else {
        let p = proposal_at(pre, proposal_id);
        let w = member_weight(pre.voters, sender);
        if !is_member(p.voters, sender) {
            post == pre && r == Err::<ResponseView, ContractError>(ContractError::Unauthorized)
        } else if p.status != Status::Open || spec_threshold_decided(p) {
            post == pre && r == Err::<ResponseView, ContractError>(ContractError::NotOpen)
        } else if spec_is_expired(p.expires, block) {
            post == pre && r == Err::<ResponseView, ContractError>(ContractError::Expired)
        } else if has_ballot(p.ballots, sender) {
            post == pre && r == Err::<ResponseView, ContractError>(ContractError::AlreadyVoted)
        } else if !spec_vote_fits(p.votes, v, w) {
            post == pre && r == Err::<ResponseView, ContractError>(ContractError::Overflow)
        } else {
            &&& post == (StateView {
                proposals: pre.proposals.update(proposal_id - 1, post.proposals[proposal_id - 1]),
                ..pre
            })
            &&& is_voted_proposal(p, post.proposals[proposal_id - 1], sender, v, w, block)
            &&& r == Ok::<ResponseView, ContractError>(
                ResponseView {
                    messages: Seq::empty(),
                    events: seq![
                        EventView::Voted {
                            proposal_id,
                            voter: sender,
                            vote: v,
                            status: post.proposals[proposal_id - 1].status,
                        },
                    ],
                },
            )
        }
    }
}

/// Casts a ballot on an open proposal and re-derives its status.
pub fn vote(
    state: &mut State,
    block: &BlockInfo,
    sender: &String,
    proposal_id: u64,
    choice: Vote,
) -> (r: Result<Response, ContractError>)
    requires
        state_wf(old(state).deep_view()),
    ensures
        state_wf(final(state).deep_view()),
        vote_transition(
            old(state).deep_view(),
            *block,
            sender@,
            proposal_id,
            choice,
            final(state).deep_view(),
            result_view(r),
        ),
        // snapshots taken at creation never change when ballots come in
        forall|j: int| 0 <= j < old(state).proposals.len()
            ==> (#[trigger] final(state).deep_view().proposals[j]).threshold == old(
            state,
        ).deep_view().proposals[j].threshold && final(state).deep_view().proposals[j].total_weight
            == old(state).deep_view().proposals[j].total_weight,
{
    let ghost pre = old(state).deep_view();
    // only current members of the group can vote
    let vote_power: u64 = match find_voter(&state.voters, sender) {
        Some(i) => {
            proof {
                lemma_member_weight_at(pre.voters, i as int);
            }
            state.voters[i].weight
        },
        None => {
            return Err(ContractError::Unauthorized);
        },
    };
    if proposal_id == 0 || proposal_id > state.proposals.len() as u64 {
        return Err(ContractError::NoSuchProposal);
    }
    let idx = (proposal_id - 1) as usize;
    let ghost pv = pre.proposals[idx as int];
    // the caller must also have been a member when the proposal was created
    let eligible = {
        let p = &state.proposals[idx];
        find_voter(&p.voters, sender)
    };
    if eligible.is_none() {
        return Err(ContractError::Unauthorized);
    }
    {
        let p = &state.proposals[idx];
        if p.status != Status::Open || p.threshold_decided() {
            return Err(ContractError::NotOpen);
        }
        if p.expires.is_expired(block) {
            return Err(ContractError::Expired);
        }
        if find_ballot(&p.ballots, sender).is_some() {
            return Err(ContractError::AlreadyVoted);
        }
    }
    // make sure the tally can absorb the ballot before touching anything
    let new_votes = {
        let p = &state.proposals[idx];
        let bucket = match choice {
            Vote::Yes => p.votes.yes,
            Vote::No => p.votes.no,
            Vote::Abstain => p.votes.abstain,
            Vote::Veto => p.votes.veto,
        };
        match bucket.checked_add(vote_power) {
            None => {
                return Err(ContractError::Overflow);
            },
            Some(sum) => match choice {
                Vote::Yes => Votes { yes: sum, ..p.votes },
                Vote::No => Votes { no: sum, ..p.votes },
                Vote::Abstain => Votes { abstain: sum, ..p.votes },
                Vote::Veto => Votes { veto: sum, ..p.votes },
            },
        }
    };
    let mut p = state.proposals.remove(idx);
    let ballot = Ballot { voter: sender.clone(), vote: choice, weight: vote_power };
    insert_ballot(&mut p.ballots, ballot);
    p.votes = new_votes;
    p.update_status(block);
    let status = p.status;
    let ghost q = p.deep_view();
    proof {
        assert(q == ProposalView {
            votes: spec_add_vote(pv.votes, choice, vote_power),
            status: spec_current_status(
                ProposalView { votes: spec_add_vote(pv.votes, choice, vote_power), ..pv },
                *block,
            ),
            ballots: q.ballots,
            ..pv
        }) by {
            assert(ProposalView { votes: new_votes, ..pv } =~~= ProposalView {
                votes: spec_add_vote(pv.votes, choice, vote_power),
                ..pv
            });
            assert(q =~~= ProposalView {
                votes: spec_add_vote(pv.votes, choice, vote_power),
                status: q.status,
                ballots: q.ballots,
                ..pv
            });
        }
        assert(is_voted_proposal(pv, q, sender@, choice, vote_power, *block));
    }
    state.proposals.insert(idx, p);
    proof {
        assert(state.deep_view() =~~= (StateView {
            proposals: pre.proposals.update(idx as int, q),
            ..pre
        }));
        lemma_voted_proposal_wf(pv, q, sender@, choice, vote_power, *block);
    }
    let resp = Response {
        messages: Vec::new(),
        events: vec![
            Event::Voted { proposal_id, voter: sender.clone(), vote: choice, status },
        ],
    };
    proof {
        assert(resp.deep_view() =~~= (ResponseView {
            messages: Seq::empty(),
            events: seq![
                EventView::Voted { proposal_id, voter: sender@, vote: choice, status: q.status },
            ],
        }));
    }
    Ok(resp)
}

/// A well-formed proposal stays well-formed after a ballot is recorded
/// on it by a member of its creation snapshot.
proof fn lemma_voted_proposal_wf(
    p: ProposalView,
    q: ProposalView,
    sender: Seq<char>,
    v: Vote,
    w: u64,
    block: BlockInfo,
)
    requires
        crate::proposal::prop_wf(p),
        is_voted_proposal(p, q, sender, v, w, block),
        is_member(p.voters, sender),
        spec_vote_fits(p.votes, v, w),
        spec_tally(q.ballots, Vote::Yes) == spec_tally(p.ballots, Vote::Yes) + if v == Vote::Yes {
            w as int
        } else {
            0
        },
        spec_tally(q.ballots, Vote::No) == spec_tally(p.ballots, Vote::No) + if v == Vote::No {
            w as int
        } else {
            0
        },
        spec_tally(q.ballots, Vote::Abstain) == spec_tally(p.ballots, Vote::Abstain) + if v
            == Vote::Abstain {
            w as int
        } else {
            0
        },
        spec_tally(q.ballots, Vote::Veto) == spec_tally(p.ballots, Vote::Veto) + if v == Vote::Veto {
            w as int
        } else {
            0
        },
    ensures
        crate::proposal::prop_wf(q),
{
    assert forall|i: int| 0 <= i < q.ballots.len() implies is_member(
        q.voters,
        (#[trigger] q.ballots[i]).voter,
    ) by {
        let a = q.ballots[i].voter;
        assert(has_ballot(q.ballots, a));
        if a != sender {
            assert(has_ballot(p.ballots, a));
            let j = choose|j: int| 0 <= j < p.ballots.len() && (#[trigger] p.ballots[j]).voter
                == a;
            assert(is_member(p.voters, p.ballots[j].voter));
        }
    }
}

/// What `execute` does: anyone may trigger it; the proposal must
/// re-derive to passed (an open proposal that has met its threshold is
/// eligible even past its nominal expiration). The status is set to
/// executed and the action's effect applied in the same transaction:
/// a transfer emits one outbound instruction to the token ledger; an
/// add-voter writes (or fully overwrites) the account's weight and
/// adjusts the running total by the difference; a remove-voter deletes
/// the account's entry and decreases the total by its weight, but
/// never removes the last remaining voter. Snapshots of other
/// proposals are untouched.
pub open spec fn execute_transition(
    pre: StateView,
    block: BlockInfo,
    proposal_id: u64,
    post: StateView,
    r: Result<ResponseView, ContractError>,
) -> bool {
    if !valid_proposal_id(pre, proposal_id) {
        post == pre && r == Err::<ResponseView, ContractError>(ContractError::NoSuchProposal)
    } else {
        let p = proposal_at(pre, proposal_id);
        if spec_current_status(p, block) != Status::Passed {
            post == pre && r == Err::<ResponseView, ContractError>(
                ContractError::WrongExecuteStatus,
            )
        } else {
            let with_executed = pre.proposals.update(
                proposal_id - 1,
                ProposalView { status: Status::Executed, ..p },
            );
            match p.proposal_type {
                ProposalTypeView::Send { to, amount } => {
                    &&& post == (StateView { proposals: with_executed, ..pre })
                    &&& r == Ok::<ResponseView, ContractError>(
                        ResponseView {
                            messages: seq![
                                TokenMsgView::Transfer {
                                    token_address: pre.cw20_address,
                                    recipient: to,
                                    amount,
                                },
                            ],
                            events: seq![
                                EventView::Executed { proposal_id },
                                EventView::TransferRequested { to, amount },
                            ],
                        },
                    )
                },
                ProposalTypeView::AddVoter { address, vote_weight } => {
                    let prev: int = if is_member(pre.voters, address) {
                        member_weight(pre.voters, address) as int
                    } else {
                        0
                    };
                    if pre.config.total_weight - prev + vote_weight > u64::MAX {
                        post == pre && r == Err::<ResponseView, ContractError>(
                            ContractError::Overflow,
                        )
                    } else {
                        &&& post.config == (Config {
                            total_weight: (pre.config.total_weight - prev + vote_weight) as u64,
                            ..pre.config
                        })
                        &&& post.cw20_address == pre.cw20_address
                        &&& post.proposals == with_executed
                        &&& voters_sorted(post.voters)
                        &&& post.voters.len() == if is_member(pre.voters, address) {
                            pre.voters.len() as int
                        } else {
                            pre.voters.len() + 1 as int
                        }
                        &&& is_member(post.voters, address)
                        &&& member_weight(post.voters, address) == vote_weight
                        &&& forall|a: Seq<char>| a != address ==> #[trigger] is_member(
                            post.voters,
                            a,
                        ) == is_member(pre.voters, a)
                        &&& forall|a: Seq<char>| a != address && is_member(pre.voters, a)
                            ==> #[trigger] member_weight(post.voters, a) == member_weight(
                            pre.voters,
                            a,
                        )
                        &&& r == Ok::<ResponseView, ContractError>(
                            ResponseView {
                                messages: Seq::empty(),
                                events: seq![
                                    EventView::Executed { proposal_id },
                                    EventView::VoterAdded { address, weight: vote_weight },
                                ],
                            },
                        )
                    }
                },
                ProposalTypeView::RemoveVoter { address } => {
                    if !is_member(pre.voters, address) {
                        post == pre && r == Err::<ResponseView, ContractError>(
                            ContractError::VoterNotExist,
                        )
                    } else if pre.voters.len() == 1 {
                        post == pre && r == Err::<ResponseView, ContractError>(
                            ContractError::LastVoter,
                        )
                    } else {
                        &&& post.config == (Config {
                            total_weight: (pre.config.total_weight - member_weight(
                                pre.voters,
                                address,
                            )) as u64,
                            ..pre.config
                        })
                        &&& post.cw20_address == pre.cw20_address
                        &&& post.proposals == with_executed
                        &&& voters_sorted(post.voters)
                        &&& !is_member(post.voters, address)
                        &&& post.voters.len() == pre.voters.len() - 1
                        &&& forall|a: Seq<char>| a != address ==> #[trigger] is_member(
                            post.voters,
                            a,
                        ) == is_member(pre.voters, a)
                        &&& forall|a: Seq<char>| a != address && is_member(pre.voters, a)
                            ==> #[trigger] member_weight(post.voters, a) == member_weight(
                            pre.voters,
                            a,
                        )
                        &&& r == Ok::<ResponseView, ContractError>(
                            ResponseView {
                                messages: Seq::empty(),
                                events: seq![
                                    EventView::Executed { proposal_id },
                                    EventView::VoterRemoved { address },
                                ],
                            },
                        )
                    }
                },
            }
        }
    }
}

/// Executes a passed proposal exactly once: marks it executed and
/// applies its typed action in the same transaction.
pub fn execute(state: &mut State, block: &BlockInfo, proposal_id: u64) -> (r: Result<
    Response,
    ContractError,
>)
    requires
        state_wf(old(state).deep_view()),
    ensures
        state_wf(final(state).deep_view()),
        execute_transition(
            old(state).deep_view(),
            *block,
            proposal_id,
            final(state).deep_view(),
            result_view(r),
        ),
        // snapshots taken at creation never change, whatever executes
        forall|j: int| 0 <= j < old(state).proposals.len()
            ==> (#[trigger] final(state).deep_view().proposals[j]).threshold == old(
            state,
        ).deep_view().proposals[j].threshold && final(state).deep_view().proposals[j].total_weight
            == old(state).deep_view().proposals[j].total_weight,
{
    let ghost pre = old(state).deep_view();
    if proposal_id == 0 || proposal_id > state.proposals.len() as u64 {
        return Err(ContractError::NoSuchProposal);
    }
    let idx = (proposal_id - 1) as usize;
    let ghost pv = pre.proposals[idx as int];
    proof {
        assert(crate::proposal::prop_wf(pv));
    }
    // anyone can trigger execution once the vote has passed; execution
    // stays possible past the nominal expiration, because the ballots
    // already cast are immutable
    {
        let p = &state.proposals[idx];
        if p.current_status(block) != Status::Passed {
            return Err(ContractError::WrongExecuteStatus);
        }
    }
    let action = {
        let p = &state.proposals[idx];
        match &p.proposal_type {
            ProposalType::Send { to, amount } => ProposalType::Send {
                to: to.clone(),
                amount: *amount,
            },
            ProposalType::AddVoter { address, vote_weight } => ProposalType::AddVoter {
                address: address.clone(),
                vote_weight: *vote_weight,
            },
            ProposalType::RemoveVoter { address } => ProposalType::RemoveVoter {
                address: address.clone(),
            },
        }
    };
    proof {
        assert(action.deep_view() == pv.proposal_type);
    }
    // validate the effect and compute the new totals before any write,
    // so that a failing call leaves the state untouched
    match &action {
        ProposalType::Send { .. } => {},
        ProposalType::AddVoter { address, vote_weight } => {
            let prev: u64 = match find_voter(&state.voters, address) {
                Some(i) => {
                    proof {
                        lemma_member_weight_at(pre.voters, i as int);
                        lemma_sum_at_least_entry(pre.voters, i as int);
                    }
                    state.voters[i].weight
                },
                None => 0,
            };
            let base = state.config.total_weight - prev;
            if base.checked_add(*vote_weight).is_none() {
                return Err(ContractError::Overflow);
            }
        },
        ProposalType::RemoveVoter { address } => {
            if find_voter(&state.voters, address).is_none() {
                return Err(ContractError::VoterNotExist);
            }
            if state.voters.len() == 1 {
                return Err(ContractError::LastVoter);
            }
        },
    }
    // set it to executed before dispatching the effect
    let mut p = state.proposals.remove(idx);
    p.status = Status::Executed;
    state.proposals.insert(idx, p);
    proof {
        assert(state.proposals.deep_view() =~= pre.proposals.update(
            idx as int,
            ProposalView { status: Status::Executed, ..pv },
        ));
    }
    match action {
        ProposalType::Send { to, amount } => {
            let ghost to_v = to@;
            let resp = Response {
                messages: vec![
                    TokenMsg::Transfer {
                        token_address: state.cw20_address.clone(),
                        recipient: to.clone(),
                        amount,
                    },
                ],
                events: vec![
                    Event::Executed { proposal_id },
                    Event::TransferRequested { to, amount },
                ],
            };
            proof {
                assert(state.deep_view() =~~= (StateView {
                    proposals: pre.proposals.update(
                        idx as int,
                        ProposalView { status: Status::Executed, ..pv },
                    ),
                    ..pre
                }));
                assert(resp.deep_view() =~~= (ResponseView {
                    messages: seq![
                        TokenMsgView::Transfer {
                            token_address: pre.cw20_address,
                            recipient: to_v,
                            amount,
                        },
                    ],
                    events: seq![
                        EventView::Executed { proposal_id },
                        EventView::TransferRequested { to: to_v, amount },
                    ],
                }));
            }
            Ok(resp)
        },
        ProposalType::AddVoter { address, vote_weight } => {
            let prev = set_voter(
                &mut state.voters,
                Voter { addr: address.clone(), weight: vote_weight },
            );
            let prev_w: u64 = match prev {
                Some(w) => w,
                None => 0,
            };
            state.config.total_weight = (state.config.total_weight - prev_w) + vote_weight;
            proof {
                lemma_positive_weights(pre.voters, state.voters.deep_view(), address@, vote_weight);
            }
            let resp = Response {
                messages: Vec::new(),
                events: vec![
                    Event::Executed { proposal_id },
                    Event::VoterAdded { address: address.clone(), weight: vote_weight },
                ],
            };
            proof {
                assert(resp.deep_view() =~~= (ResponseView {
                    messages: Seq::empty(),
                    events: seq![
                        EventView::Executed { proposal_id },
                        EventView::VoterAdded { address: address@, weight: vote_weight },
                    ],
                }));
                assert(state.proposals.deep_view() == pre.proposals.update(
                    idx as int,
                    ProposalView { status: Status::Executed, ..pv },
                ));
            }
            Ok(resp)
        },
        ProposalType::RemoveVoter { address } => {
            let i = match find_voter(&state.voters, &address) {
                Some(i) => i,
                None => {
                    proof {
                        assert(false);
                    }
                    0
                },
            };
            proof {
                lemma_member_weight_at(pre.voters, i as int);
                lemma_sum_at_least_entry(pre.voters, i as int);
            }
            let w = delete_voter(&mut state.voters, i);
            state.config.total_weight = state.config.total_weight - w;
            proof {
                lemma_positive_weights_removed(pre.voters, state.voters.deep_view());
            }
            let resp = Response {
                messages: Vec::new(),
                events: vec![
                    Event::Executed { proposal_id },
                    Event::VoterRemoved { address: address.clone() },
                ],
            };
            proof {
                assert(resp.deep_view() =~~= (ResponseView {
                    messages: Seq::empty(),
                    events: seq![
                        EventView::Executed { proposal_id },
                        EventView::VoterRemoved { address: address@ },
                    ],
                }));
                assert(state.proposals.deep_view() == pre.proposals.update(
                    idx as int,
                    ProposalView { status: Status::Executed, ..pv },
                ));
            }
            Ok(resp)
        },
    }
}

/// A voter table keeps all weights positive after an account is set to
/// a positive weight.
proof fn lemma_positive_weights(
    pre: Seq<VoterView>,
    post: Seq<VoterView>,
    address: Seq<char>,
    weight: u64,
)
    requires
        voters_sorted(pre),
        voters_sorted(post),
        forall|i: int| 0 <= i < pre.len() ==> (#[trigger] pre[i]).weight >= 1,
        weight >= 1,
        is_member(post, address),
        member_weight(post, address) == weight,
        forall|a: Seq<char>| a != address ==> #[trigger] is_member(post, a) == is_member(pre, a),
        forall|a: Seq<char>| a != address && is_member(pre, a) ==> #[trigger] member_weight(
            post,
            a,
        ) == member_weight(pre, a),
    ensures
        forall|i: int| 0 <= i < post.len() ==> (#[trigger] post[i]).weight >= 1,
{
    assert forall|i: int| 0 <= i < post.len() implies (#[trigger] post[i]).weight >= 1 by {
        let a = post[i].addr;
        lemma_member_weight_at(post, i);
        assert(is_member(post, a));
        if a != address {
            assert(is_member(pre, a));
            let j = choose|j: int| 0 <= j < pre.len() && (#[trigger] pre[j]).addr == a;
            lemma_member_weight_at(pre, j);
        }
    }
}

/// A voter table keeps all weights positive after an account is
/// removed.
proof fn lemma_positive_weights_removed(pre: Seq<VoterView>, post: Seq<VoterView>)
    requires
        voters_sorted(pre),
        voters_sorted(post),
        forall|i: int| 0 <= i < pre.len() ==> (#[trigger] pre[i]).weight >= 1,
        forall|a: Seq<char>| is_member(post, a) ==> is_member(pre, a) && #[trigger] member_weight(
            post,
            a,
        ) == member_weight(pre, a),
    ensures
        forall|i: int| 0 <= i < post.len() ==> (#[trigger] post[i]).weight >= 1,
{
    assert forall|i: int| 0 <= i < post.len() implies (#[trigger] post[i]).weight >= 1 by {
        let a = post[i].addr;
        lemma_member_weight_at(post, i);
        assert(is_member(post, a));
        assert(is_member(pre, a));
        let j = choose|j: int| 0 <= j < pre.len() && (#[trigger] pre[j]).addr == a;
        lemma_member_weight_at(pre, j);
    }
}

/// An action executes at most once: after a successful execution of a
/// proposal, any further execution attempt on the same proposal fails
/// with the wrong-execute-status error and leaves the state unchanged,
/// whatever block it is attempted at.
pub proof fn lemma_execute_at_most_once(
    s1: StateView,
    block1: BlockInfo,
    proposal_id: u64,
    s2: StateView,
    r1: Result<ResponseView, ContractError>,
    block2: BlockInfo,
    s3: StateView,
    r2: Result<ResponseView, ContractError>,
)
    requires
        execute_transition(s1, block1, proposal_id, s2, r1),
        r1 is Ok,
        execute_transition(s2, block2, proposal_id, s3, r2),
    ensures
        r2 == Err::<ResponseView, ContractError>(ContractError::WrongExecuteStatus),
        s3 == s2,
{
    let p2 = proposal_at(s2, proposal_id);
    assert(p2.status == Status::Executed);
    assert(spec_current_status(p2, block2) == Status::Executed);
}

/// What `close` does: an expired proposal that is still open by its
/// stored status, and does not re-derive to passed, is administratively
/// forced to rejected.
pub open spec fn close_transition(
    pre: StateView,
    block: BlockInfo,
    proposal_id: u64,
    post: StateView,
    r: Result<ResponseView, ContractError>,
) -> bool {
    if !valid_proposal_id(pre, proposal_id) {
        post == pre && r == Err::<ResponseView, ContractError>(ContractError::NoSuchProposal)
    } else {
        let p = proposal_at(pre, proposal_id);
        if p.status != Status::Open || spec_current_status(p, block) == Status::Passed {
            post == pre && r == Err::<ResponseView, ContractError>(ContractError::WrongCloseStatus)
        } else if !spec_is_expired(p.expires, block) {
            post == pre && r == Err::<ResponseView, ContractError>(ContractError::NotExpired)
        } else {
            &&& post == (StateView {
                proposals: pre.proposals.update(
                    proposal_id - 1,
                    ProposalView { status: Status::Rejected, ..p },
                ),
                ..pre
            })
            &&& r == Ok::<ResponseView, ContractError>(
                ResponseView {
                    messages: Seq::empty(),
                    events: seq![EventView::Closed { proposal_id }],
                },
            )
        }
    }
}

/// Forces an expired, still-open proposal to rejected.
pub fn close(state: &mut State, block: &BlockInfo, proposal_id: u64) -> (r: Result<
    Response,
    ContractError,
>)
    requires
        state_wf(old(state).deep_view()),
    ensures
        state_wf(final(state).deep_view()),
        close_transition(
            old(state).deep_view(),
            *block,
            proposal_id,
            final(state).deep_view(),
            result_view(r),
        ),
{
    let ghost pre = old(state).deep_view();
    if proposal_id == 0 || proposal_id > state.proposals.len() as u64 {
        return Err(ContractError::NoSuchProposal);
    }
    let idx = (proposal_id - 1) as usize;
    let ghost pv = pre.proposals[idx as int];
    proof {
        assert(crate::proposal::prop_wf(pv));
    }
    {
        let p = &state.proposals[idx];
        if p.status != Status::Open || p.current_status(block) == Status::Passed {
            return Err(ContractError::WrongCloseStatus);
        }
        if !p.expires.is_expired(block) {
            return Err(ContractError::NotExpired);
        }
    }
    let mut p = state.proposals.remove(idx);
    p.status = Status::Rejected;
    state.proposals.insert(idx, p);
    proof {
        assert(state.deep_view() =~~= (StateView {
            proposals: pre.proposals.update(
                idx as int,
                ProposalView { status: Status::Rejected, ..pv },
            ),
            ..pre
        }));
    }
    let resp = Response {
        messages: Vec::new(),
        events: vec![Event::Closed { proposal_id }],
    };
    proof {
        assert(resp.deep_view() =~~= (ResponseView {
            messages: Seq::empty(),
            events: seq![EventView::Closed { proposal_id }],
        }));
    }
    Ok(resp)
}

} // verus!
