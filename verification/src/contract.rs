//! The module's entry points: instantiation, the state-changing
//! dispatcher and the read-only query dispatcher.

use vstd::prelude::*;
use crate::error::ContractError;
use crate::execute::{
    close, close_transition, execute_transition, propose, propose_transition, vote,
    vote_transition,
};
use crate::expiration::BlockInfo;
use crate::msg::{
    result_view, ExecuteMsg, InstantiateMsg, QueryAnswer, QueryMsg, Response, ResponseView, Voter,
};
use crate::query::{
    is_proposal_page, is_reverse_proposal_page, is_vote_page, is_voter_page, list_proposals,
    list_voters, list_votes, proposal, reverse_proposals, spec_proposal_response,
    spec_threshold_response, spec_vote_response, spec_voter_response, threshold,
};
use crate::state::{state_wf, valid_proposal_id, Config, State};
use crate::threshold::spec_validate;
use crate::voters::{
    all_weights_positive, has_duplicate, is_member, lemma_member_weight_at, lemma_sum_take_le,
    member_weight, set_voter, sum_weights,
};

verus! {

/// Sets up the module: the initial voting group (no empty group, no
/// zero weight, no account twice), the threshold rule validated
/// against the group's total weight, the maximum voting period, and
/// the token-ledger address. The total weight is the sum of all given
/// weights; weight arithmetic fails closed.
pub fn instantiate(msg: InstantiateMsg) -> (r: Result<(State, Response), ContractError>)
    ensures
        ({
            let vs = msg.voters.deep_view();
            &&& vs.len() == 0 ==> r == Err::<(State, Response), ContractError>(
                ContractError::NoVoters,
            )
            &&& vs.len() > 0 && !all_weights_positive(vs) ==> r == Err::<
                (State, Response),
                ContractError,
            >(ContractError::InvalidVoteWeight)
            &&& vs.len() > 0 && all_weights_positive(vs) && has_duplicate(vs) ==> r == Err::<
                (State, Response),
                ContractError,
            >(ContractError::DuplicateVoter)
            &&& vs.len() > 0 && all_weights_positive(vs) && !has_duplicate(vs) && sum_weights(vs)
                > u64::MAX ==> r == Err::<(State, Response), ContractError>(ContractError::Overflow)
            &&& vs.len() > 0 && all_weights_positive(vs) && !has_duplicate(vs) && sum_weights(vs)
                <= u64::MAX ==> match spec_validate(msg.threshold, sum_weights(vs) as u64) {
                Some(e) => r == Err::<(State, Response), ContractError>(e),
                None => r matches Ok(p) && {
                    let st = p.0.deep_view();
                    &&& state_wf(st)
                    &&& st.config == (Config {
                        threshold: msg.threshold,
                        max_voting_period: msg.max_voting_period,
                        total_weight: sum_weights(vs) as u64,
                    })
                    &&& st.cw20_address == msg.cw20_address@
                    &&& st.proposals.len() == 0
                    &&& st.voters.len() == vs.len()
                    &&& forall|a: Seq<char>| #[trigger] is_member(st.voters, a) <==> exists|j: int|
                        0 <= j < vs.len() && (#[trigger] vs[j]).addr == a
                    &&& forall|j: int| 0 <= j < vs.len() ==> member_weight(
                        st.voters,
                        (#[trigger] vs[j]).addr,
                    ) == vs[j].weight
                    &&& p.1.deep_view() == (ResponseView {
                        messages: Seq::empty(),
                        events: Seq::empty(),
                    })
                },
            }
        }),
{
    let ghost vs = msg.voters.deep_view();
    let n = msg.voters.len();
    if n == 0 {
        return Err(ContractError::NoVoters);
    }
    // a weight of zero would be equivalent to absence; reject it
    let mut i: usize = 0;
    while i < n
        invariant
            i <= n,
            n == msg.voters.len(),
            vs == msg.voters.deep_view(),
            forall|j: int| 0 <= j < i ==> (#[trigger] vs[j]).weight >= 1,
        decreases n - i,
    {
        if msg.voters[i].weight == 0 {
            proof {
                assert(vs[i as int].weight == 0);
                assert(!all_weights_positive(vs));
            }
            return Err(ContractError::InvalidVoteWeight);
        }
        i = i + 1;
    }
    // every account may appear only once
    i = 1;
    while i < n
        invariant
            1 <= i <= n || n <= 1,
            n == msg.voters.len(),
            vs == msg.voters.deep_view(),
            all_weights_positive(vs),
            forall|a: int, b: int| #![trigger vs[a], vs[b]] 0 <= a < b < i ==> vs[a].addr
                != vs[b].addr,
        decreases n - i,
    {
        let mut j: usize = 0;
        while j < i
            invariant
                j <= i < n,
                n == msg.voters.len(),
                vs == msg.voters.deep_view(),
                all_weights_positive(vs),
                forall|b: int| 0 <= b < j ==> (#[trigger] vs[b]).addr != vs[i as int].addr,
            decreases i - j,
        {
            if msg.voters[j].addr == msg.voters[i].addr {
                proof {
                    assert(vs[j as int].addr == vs[i as int].addr);
                    assert(has_duplicate(vs));
                }
                return Err(ContractError::DuplicateVoter);
            }
            j = j + 1;
        }
        i = i + 1;
    }
    // total weight, failing closed on overflow
    let mut total: u64 = 0;
    i = 0;
    while i < n
        invariant
            i <= n,
            n == msg.voters.len(),
            vs == msg.voters.deep_view(),
            all_weights_positive(vs),
            !has_duplicate(vs),
            total == sum_weights(vs.take(i as int)),
        decreases n - i,
    {
        proof {
            assert(vs.take(i + 1).drop_last() =~= vs.take(i as int));
            assert(vs.take(i + 1).last() == vs[i as int]);
        }
        total = match total.checked_add(msg.voters[i].weight) {
            Some(t) => t,
            None => {
                proof {
                    assert(sum_weights(vs.take(i + 1)) > u64::MAX);
                    lemma_sum_take_le(vs, i + 1);
                    assert(sum_weights(vs) > u64::MAX);
                }
                return Err(ContractError::Overflow);
            },
        };
        i = i + 1;
    }
    proof {
        assert(vs.take(n as int) =~= vs);
    }
    match msg.threshold.validate(total) {
        Err(e) => {
            return Err(e);
        },
        Ok(()) => {},
    }
    // build the sorted weight ledger
    let mut voters: Vec<Voter> = Vec::new();
    i = 0;
    while i < n
        invariant
            i <= n,
            n == msg.voters.len(),
            vs == msg.voters.deep_view(),
            forall|a: int, b: int| #![trigger vs[a], vs[b]] 0 <= a < b < n ==> vs[a].addr
                != vs[b].addr,
            forall|j: int| 0 <= j < n ==> (#[trigger] vs[j]).weight >= 1,
            crate::voters::voters_sorted(voters.deep_view()),
            voters.len() == i,
            sum_weights(voters.deep_view()) == sum_weights(vs.take(i as int)),
            forall|a: Seq<char>| #[trigger] is_member(voters.deep_view(), a) <==> exists|j: int|
                0 <= j < i && (#[trigger] vs[j]).addr == a,
            forall|j: int| 0 <= j < i ==> member_weight(voters.deep_view(), (#[trigger] vs[j]).addr)
                == vs[j].weight,
        decreases n - i,
    {
        let v = Voter { addr: msg.voters[i].addr.clone(), weight: msg.voters[i].weight };
        proof {
            if is_member(voters.deep_view(), v.addr@) {
                let j = choose|j: int| 0 <= j < i && (#[trigger] vs[j]).addr == v.addr@;
                assert(vs[j].addr == vs[i as int].addr);
                assert(false);
            }
            assert(vs.take(i + 1).drop_last() =~= vs.take(i as int));
            assert(vs.take(i + 1).last() == vs[i as int]);
        }
        let ghost voters0 = voters.deep_view();
        let prev = set_voter(&mut voters, v);
        proof {
            assert(prev is None);
            assert forall|a: Seq<char>| #[trigger] is_member(voters.deep_view(), a)
                <==> exists|j: int| 0 <= j < i + 1 && (#[trigger] vs[j]).addr == a by {
                if a == vs[i as int].addr {
                    assert(is_member(voters.deep_view(), a));
                    assert(vs[i as int].addr == a);
                } else {
                    assert(is_member(voters.deep_view(), a) == is_member(voters0, a));
                }
            }
            assert forall|j: int| 0 <= j < i + 1 implies member_weight(
                voters.deep_view(),
                (#[trigger] vs[j]).addr,
            ) == vs[j].weight by {
                if j < i {
                    assert(vs[j].addr != vs[i as int].addr);
                    assert(is_member(voters0, vs[j].addr));
                }
            }
        }
        i = i + 1;
    }
    proof {
        assert(vs.take(n as int) =~= vs);
        assert forall|k: int| 0 <= k < voters.deep_view().len() implies (
        #[trigger] voters.deep_view()[k]).weight >= 1 by {
            let a = voters.deep_view()[k].addr;
            lemma_member_weight_at(voters.deep_view(), k);
            assert(is_member(voters.deep_view(), a));
            let j = choose|j: int| 0 <= j < n && (#[trigger] vs[j]).addr == a;
            assert(member_weight(voters.deep_view(), vs[j].addr) == vs[j].weight);
        }
    }
    let st = State {
        config: Config {
            threshold: msg.threshold,
            max_voting_period: msg.max_voting_period,
            total_weight: total,
        },
        cw20_address: msg.cw20_address,
        voters,
        proposals: Vec::new(),
    };
    let resp = Response { messages: Vec::new(), events: Vec::new() };
    proof {
        assert(st.deep_view().proposals =~= Seq::empty());
        assert(resp.deep_view() =~~= (ResponseView { messages: Seq::empty(), events: Seq::empty() }));
    }
    Ok((st, resp))
}

/// Dispatches a state-changing request to the governance engine.
pub fn execute(state: &mut State, block: &BlockInfo, sender: &String, msg: ExecuteMsg) -> (r:
    Result<Response, ContractError>)
    requires
        state_wf(old(state).deep_view()),
        msg matches ExecuteMsg::Propose { .. } ==> old(state).proposals.len() < u64::MAX,
    ensures
        state_wf(final(state).deep_view()),
        match msg {
            ExecuteMsg::Propose { title, description, proposal_type, latest } => propose_transition(
                old(state).deep_view(),
                *block,
                sender@,
                title@,
                description@,
                proposal_type.deep_view(),
                latest,
                final(state).deep_view(),
                result_view(r),
            ),
            ExecuteMsg::Vote { proposal_id, vote } => vote_transition(
                old(state).deep_view(),
                *block,
                sender@,
                proposal_id,
                vote,
                final(state).deep_view(),
                result_view(r),
            ),
            ExecuteMsg::Execute { proposal_id } => execute_transition(
                old(state).deep_view(),
                *block,
                proposal_id,
                final(state).deep_view(),
                result_view(r),
            ),
            ExecuteMsg::Close { proposal_id } => close_transition(
                old(state).deep_view(),
                *block,
                proposal_id,
                final(state).deep_view(),
                result_view(r),
            ),
        },
{
    match msg {
        ExecuteMsg::Propose { title, description, proposal_type, latest } => propose(
            state,
            block,
            sender,
            title,
            description,
            proposal_type,
            latest,
        ),
        ExecuteMsg::Vote { proposal_id, vote } => crate::execute::vote(
            state,
            block,
            sender,
            proposal_id,
            vote,
        ),
        ExecuteMsg::Execute { proposal_id } => crate::execute::execute(state, block, proposal_id),
        ExecuteMsg::Close { proposal_id } => close(state, block, proposal_id),
    }
}

/// Dispatches a read-only request to the query layer. Reading derives
/// statuses on the fly and never changes the state.
pub fn query(state: &State, block: &BlockInfo, msg: QueryMsg) -> (r: Result<
    QueryAnswer,
    ContractError,
>)
    requires
        state_wf(state.deep_view()),
    ensures
        match msg {
            QueryMsg::Threshold => r matches Ok(QueryAnswer::Threshold(t)) && t
                == spec_threshold_response(state.deep_view()),
            QueryMsg::Proposal { proposal_id } => {
                if valid_proposal_id(state.deep_view(), proposal_id) {
                    r matches Ok(QueryAnswer::Proposal(p)) && p.deep_view()
                        == spec_proposal_response(state.deep_view(), proposal_id, *block)
                } else {
                    r == Err::<QueryAnswer, ContractError>(ContractError::NoSuchProposal)
                }
            },
            QueryMsg::ListProposals { start_after, limit } => r matches Ok(
                QueryAnswer::ProposalList(l),
            ) && is_proposal_page(
                state.deep_view(),
                *block,
                start_after,
                limit,
                l.deep_view().proposals,
            ),
            QueryMsg::ReverseProposals { start_before, limit } => r matches Ok(
                QueryAnswer::ProposalList(l),
            ) && is_reverse_proposal_page(
                state.deep_view(),
                *block,
                start_before,
                limit,
                l.deep_view().proposals,
            ),
            QueryMsg::Vote { proposal_id, voter } => r matches Ok(QueryAnswer::Vote(v))
                && v.deep_view() == spec_vote_response(state.deep_view(), proposal_id, voter@),
            QueryMsg::ListVotes { proposal_id, start_after, limit } => r matches Ok(
                QueryAnswer::VoteList(l),
            ) && is_vote_page(
                state.deep_view(),
                proposal_id,
                start_after.deep_view(),
                limit,
                l.deep_view().votes,
            ),
            QueryMsg::Voter { address } => r matches Ok(QueryAnswer::Voter(v)) && v
                == spec_voter_response(state.deep_view(), address@),
            QueryMsg::ListVoters { start_after, limit } => r matches Ok(QueryAnswer::VoterList(l))
                && is_voter_page(
                state.deep_view(),
                start_after.deep_view(),
                limit,
                l.deep_view().voters,
            ),
        },
{
    match msg {
        QueryMsg::Threshold => Ok(QueryAnswer::Threshold(threshold(state))),
        QueryMsg::Proposal { proposal_id } => match proposal(state, block, proposal_id) {
            Ok(p) => Ok(QueryAnswer::Proposal(p)),
            Err(e) => Err(e),
        },
        QueryMsg::ListProposals { start_after, limit } => Ok(
            QueryAnswer::ProposalList(list_proposals(state, block, start_after, limit)),
        ),
        QueryMsg::ReverseProposals { start_before, limit } => Ok(
            QueryAnswer::ProposalList(reverse_proposals(state, block, start_before, limit)),
        ),
        QueryMsg::Vote { proposal_id, voter } => Ok(
            QueryAnswer::Vote(crate::query::vote(state, proposal_id, voter)),
        ),
        QueryMsg::ListVotes { proposal_id, start_after, limit } => Ok(
            QueryAnswer::VoteList(list_votes(state, proposal_id, start_after, limit)),
        ),
        QueryMsg::Voter { address } => Ok(
            QueryAnswer::Voter(crate::query::voter(state, address)),
        ),
        QueryMsg::ListVoters { start_after, limit } => Ok(
            QueryAnswer::VoterList(list_voters(state, start_after, limit)),
        ),
    }
}

} // verus!
