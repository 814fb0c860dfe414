//! The read-only query layer: single lookups and paginated listings
//! over the proposal store, the ballots and the voter table. Reading
//! never mutates: statuses are re-derived on the fly for display and
//! the stored fields are left untouched.

use vstd::prelude::*;
use crate::error::ContractError;
use crate::expiration::BlockInfo;
use crate::msg::{
    ProposalListResponse, ProposalResponse, ProposalResponseView, ProposalType, VoteInfo,
    VoteInfoView, VoteListResponse, VoteResponse, VoteResponseView, VoterDetail, VoterDetailView,
    VoterListResponse, VoterResponse, VoterView,
};
use crate::order::{lex_lt, str_lt};
use crate::proposal::{
    ballot_for, find_ballot, has_ballot, lemma_ballot_for_at, spec_current_status, BallotView,
    Status,
};
use crate::state::{proposal_at, state_wf, valid_proposal_id, State, StateView};
use crate::threshold::{spec_to_response, ThresholdResponse};
use crate::voters::{find_voter, is_member, lemma_member_weight_at, member_weight};

verus! {

/// The most entries a single listing may return.
pub const MAX_LIMIT: u32 = 30;

/// The number of entries a listing returns when the caller asks for no
/// particular limit.
pub const DEFAULT_LIMIT: u32 = 10;

/// The page size a listing uses for the caller's requested limit.
pub open spec fn spec_limit(limit: Option<u32>) -> int {
    let l = match limit {
        Some(l) => l as int,
        None => DEFAULT_LIMIT as int,
    };
    if l <= MAX_LIMIT as int {
        l
    } else {
        MAX_LIMIT as int
    }
}

fn effective_limit(limit: Option<u32>) -> (l: usize)
    ensures
        l == spec_limit(limit),
{
    let l = match limit {
        Some(l) => l,
        None => DEFAULT_LIMIT,
    };
    if l <= MAX_LIMIT {
        l as usize
    } else {
        MAX_LIMIT as usize
    }
}

/// The threshold rule together with the current total weight.
pub open spec fn spec_threshold_response(s: StateView) -> ThresholdResponse {
    spec_to_response(s.config.threshold, s.config.total_weight)
}

/// How proposal `id` is reported: its stored fields, the status
/// re-derived at the ambient block, and the threshold response built
/// from the rule and total weight snapshotted at its creation.
pub open spec fn spec_proposal_response(s: StateView, id: u64, block: BlockInfo)
    -> ProposalResponseView {
    let p = proposal_at(s, id);
    ProposalResponseView {
        id,
        title: p.title,
        description: p.description,
        proposal_type: p.proposal_type,
        status: spec_current_status(p, block),
        expires: p.expires,
        threshold: spec_to_response(p.threshold, p.total_weight),
        proposer: p.proposer,
        deposit: p.deposit,
    }
}

/// The recorded ballot of `voter` on proposal `proposal_id`, if both
/// exist.
pub open spec fn spec_vote_response(s: StateView, proposal_id: u64, voter: Seq<char>)
    -> VoteResponseView {
    if valid_proposal_id(s, proposal_id) && has_ballot(
        proposal_at(s, proposal_id).ballots,
        voter,
    ) {
        let b = ballot_for(proposal_at(s, proposal_id).ballots, voter);
        VoteResponseView {
            vote: Some(
                VoteInfoView { proposal_id, voter, vote: b.vote, weight: b.weight },
            ),
        }
    } else {
        VoteResponseView { vote: None }
    }
}

/// The current weight entry of `address`, if any.
pub open spec fn spec_voter_response(s: StateView, address: Seq<char>) -> VoterResponse {
    if is_member(s.voters, address) {
        VoterResponse { weight: Some(member_weight(s.voters, address)) }
    } else {
        VoterResponse { weight: None }
    }
}

/// The ascending proposal listing: the page holds the proposals with
/// identifiers strictly above the cursor, in ascending order, capped
/// at the page size. Identifiers are sequential, so the page is the
/// run of identifiers right after the cursor.
pub open spec fn is_proposal_page(
    s: StateView,
    block: BlockInfo,
    start_after: Option<u64>,
    limit: Option<u32>,
    out: Seq<ProposalResponseView>,
) -> bool {
    let start = match start_after {
        Some(c) => c as int,
        None => 0,
    };
    let n = s.proposals.len() as int;
    let count = if start >= n {
        0
    } else if n - start <= spec_limit(limit) {
        n - start
    } else {
        spec_limit(limit)
    };
    &&& out.len() == count
    &&& forall|j: int| 0 <= j < count ==> out[j] == spec_proposal_response(
        s,
        (start + 1 + j) as u64,
        block,
    )
}

/// The descending proposal listing: the page holds the proposals with
/// identifiers strictly below the cursor, in descending order, capped
/// at the page size.
pub open spec fn is_reverse_proposal_page(
    s: StateView,
    block: BlockInfo,
    start_before: Option<u64>,
    limit: Option<u32>,
    out: Seq<ProposalResponseView>,
) -> bool {
    let n = s.proposals.len() as int;
    let upper = match start_before {
        Some(c) => if c == 0 {
            0
        } else if c as int - 1 <= n {
            c as int - 1
        } else {
            n
        },
        None => n,
    };
    let count = if upper <= spec_limit(limit) {
        upper
    } else {
        spec_limit(limit)
    };
    &&& out.len() == count
    &&& forall|j: int| 0 <= j < count ==> out[j] == spec_proposal_response(
        s,
        (upper - j) as u64,
        block,
    )
}

/// Index `k` is where a ballot listing starts for the given exclusive
/// cursor: everything before `k` is at or below the cursor, and the
/// entry at `k`, if any, is above it.
pub open spec fn is_ballot_cursor(s: Seq<BallotView>, start_after: Option<Seq<char>>, k: int)
    -> bool {
    match start_after {
        None => k == 0,
        Some(c) => {
            &&& 0 <= k <= s.len()
            &&& forall|j: int| 0 <= j < k ==> !lex_lt(c, (#[trigger] s[j]).voter)
            &&& k < s.len() ==> lex_lt(c, s[k].voter)
        },
    }
}

/// The ballot listing of one proposal: the page holds the ballots with
/// voter accounts strictly above the cursor, ascending by account,
/// capped at the page size. A listing for an unknown proposal is empty.
pub open spec fn is_vote_page(
    s: StateView,
    proposal_id: u64,
    start_after: Option<Seq<char>>,
    limit: Option<u32>,
    out: Seq<VoteInfoView>,
) -> bool {
    if !valid_proposal_id(s, proposal_id) {
        out.len() == 0
    } else {
        let ballots = proposal_at(s, proposal_id).ballots;
        exists|k: int|
            {
                &&& #[trigger] is_ballot_cursor(ballots, start_after, k)
                &&& out.len() == if ballots.len() - k <= spec_limit(limit) {
                    ballots.len() - k
                } else {
                    spec_limit(limit)
                }
                &&& forall|j: int| 0 <= j < out.len() ==> out[j] == (VoteInfoView {
                    proposal_id,
                    voter: ballots[k + j].voter,
                    vote: ballots[k + j].vote,
                    weight: ballots[k + j].weight,
                })
            }
    }
}

/// A cursor position is unique: the page of a ballot listing is fully
/// determined by the cursor and the limit.
pub proof fn lemma_ballot_cursor_unique(
    s: Seq<BallotView>,
    start_after: Option<Seq<char>>,
    k1: int,
    k2: int,
)
    requires
        is_ballot_cursor(s, start_after, k1),
        is_ballot_cursor(s, start_after, k2),
    ensures
        k1 == k2,
{
    match start_after {
        None => {},
        Some(c) => {
            if k1 < k2 {
                assert(!lex_lt(c, s[k1].voter));
            } else if k2 < k1 {
                assert(!lex_lt(c, s[k2].voter));
            }
        },
    }
}

/// Index `k` is where a voter listing starts for the given exclusive
/// cursor.
pub open spec fn is_voter_cursor(s: Seq<VoterView>, start_after: Option<Seq<char>>, k: int)
    -> bool {
    match start_after {
        None => k == 0,
        Some(c) => {
            &&& 0 <= k <= s.len()
            &&& forall|j: int| 0 <= j < k ==> !lex_lt(c, (#[trigger] s[j]).addr)
            &&& k < s.len() ==> lex_lt(c, s[k].addr)
        },
    }
}

/// The voter listing: the page holds the voters with accounts strictly
/// above the cursor, ascending by account, capped at the page size.
pub open spec fn is_voter_page(
    s: StateView,
    start_after: Option<Seq<char>>,
    limit: Option<u32>,
    out: Seq<VoterDetailView>,
) -> bool {
    exists|k: int|
        {
            &&& #[trigger] is_voter_cursor(s.voters, start_after, k)
            &&& out.len() == if s.voters.len() - k <= spec_limit(limit) {
                s.voters.len() - k
            } else {
                spec_limit(limit)
            }
            &&& forall|j: int| 0 <= j < out.len() ==> out[j] == (VoterDetailView {
                addr: s.voters[k + j].addr,
                weight: s.voters[k + j].weight,
            })
        }
}

/// A cursor position is unique: the page of a voter listing is fully
/// determined by the cursor and the limit.
pub proof fn lemma_voter_cursor_unique(
    s: Seq<VoterView>,
    start_after: Option<Seq<char>>,
    k1: int,
    k2: int,
)
    requires
        is_voter_cursor(s, start_after, k1),
        is_voter_cursor(s, start_after, k2),
    ensures
        k1 == k2,
{
    match start_after {
        None => {},
        Some(c) => {
            if k1 < k2 {
                assert(!lex_lt(c, s[k1].addr));
            } else if k2 < k1 {
                assert(!lex_lt(c, s[k2].addr));
            }
        },
    }
}

/// Reports the threshold rule and the current total weight.
pub fn threshold(state: &State) -> (r: ThresholdResponse)
    ensures
        r == spec_threshold_response(state.deep_view()),
{
    state.config.threshold.to_response(state.config.total_weight)
}

/// Builds the response shape of the proposal at `idx`.
fn make_proposal_response(state: &State, block: &BlockInfo, idx: usize) -> (r: ProposalResponse)
    requires
        state_wf(state.deep_view()),
        idx < state.proposals.len(),
        idx + 1 <= u64::MAX,
    ensures
        r.deep_view() == spec_proposal_response(state.deep_view(), (idx + 1) as u64, *block),
{
    let p = &state.proposals[idx];
    proof {
        assert(crate::proposal::prop_wf(state.deep_view().proposals[idx as int]));
    }
    let proposal_type = match &p.proposal_type {
        ProposalType::Send { to, amount } => ProposalType::Send { to: to.clone(), amount: *amount },
        ProposalType::AddVoter { address, vote_weight } => ProposalType::AddVoter {
            address: address.clone(),
            vote_weight: *vote_weight,
        },
        ProposalType::RemoveVoter { address } => ProposalType::RemoveVoter {
            address: address.clone(),
        },
    };
    let r = ProposalResponse {
        id: idx as u64 + 1,
        title: p.title.clone(),
        description: p.description.clone(),
        proposal_type,
        status: p.current_status(block),
        expires: p.expires,
        threshold: p.threshold.to_response(p.total_weight),
        proposer: p.proposer.clone(),
        deposit: None,
    };
    proof {
        assert(r.deep_view() =~~= spec_proposal_response(
            state.deep_view(),
            (idx + 1) as u64,
            *block,
        ));
    }
    r
}

/// Reports one proposal with its status re-derived at the ambient
/// block.
pub fn proposal(state: &State, block: &BlockInfo, proposal_id: u64) -> (r: Result<
    ProposalResponse,
    ContractError,
>)
    requires
        state_wf(state.deep_view()),
    ensures
        valid_proposal_id(state.deep_view(), proposal_id) ==> (r matches Ok(resp)
            && resp.deep_view() == spec_proposal_response(state.deep_view(), proposal_id, *block)),
        !valid_proposal_id(state.deep_view(), proposal_id) ==> r == Err::<
            ProposalResponse,
            ContractError,
        >(ContractError::NoSuchProposal),
{
    if proposal_id == 0 || proposal_id > state.proposals.len() as u64 {
        return Err(ContractError::NoSuchProposal);
    }
    Ok(make_proposal_response(state, block, (proposal_id - 1) as usize))
}

/// Lists proposals ascending by identifier, starting strictly after
/// the cursor.
pub fn list_proposals(
    state: &State,
    block: &BlockInfo,
    start_after: Option<u64>,
    limit: Option<u32>,
) -> (r: ProposalListResponse)
    requires
        state_wf(state.deep_view()),
    ensures
        is_proposal_page(state.deep_view(), *block, start_after, limit, r.deep_view().proposals),
{
    let lim = effective_limit(limit);
    let n = state.proposals.len();
    let start_u64: u64 = match start_after {
        Some(c) => c,
        None => 0,
    };
    let mut out: Vec<ProposalResponse> = Vec::new();
    if start_u64 >= n as u64 {
        return ProposalListResponse { proposals: out };
    }
    let start = start_u64 as usize;
    let avail = n - start;
    let count = if avail <= lim {
        avail
    } else {
        lim
    };
    let mut j: usize = 0;
    while j < count
        invariant
            j <= count,
            count <= n - start,
            start + count <= n,
            n == state.proposals.len(),
            state_wf(state.deep_view()),
            out.len() == j,
            forall|i: int| 0 <= i < j ==> out.deep_view()[i] == spec_proposal_response(
                state.deep_view(),
                (start + 1 + i) as u64,
                *block,
            ),
        decreases count - j,
    {
        let resp = make_proposal_response(state, block, start + j);
        let ghost out0 = out.deep_view();
        out.push(resp);
        proof {
            assert(out.deep_view()[out0.len() as int] == resp.deep_view());
            assert(forall|i: int| 0 <= i < out0.len() ==> out.deep_view()[i] == out0[i]);
            assert forall|i: int| 0 <= i < j + 1 implies out.deep_view()[i]
                == spec_proposal_response(state.deep_view(), (start + 1 + i) as u64, *block) by {
                if i < j {
                    assert(out.deep_view()[i] == out0[i]);
                } else {
                    assert(out.deep_view()[i] == resp.deep_view());
                    assert(resp.deep_view() == spec_proposal_response(
                        state.deep_view(),
                        ((start + j) + 1) as u64,
                        *block,
                    ));
                }
            }
        }
        j = j + 1;
    }
    ProposalListResponse { proposals: out }
}

/// Lists proposals descending by identifier, starting strictly before
/// the cursor.
pub fn reverse_proposals(
    state: &State,
    block: &BlockInfo,
    start_before: Option<u64>,
    limit: Option<u32>,
) -> (r: ProposalListResponse)
    requires
        state_wf(state.deep_view()),
    ensures
        is_reverse_proposal_page(
            state.deep_view(),
            *block,
            start_before,
            limit,
            r.deep_view().proposals,
        ),
{
    let lim = effective_limit(limit);
    let n = state.proposals.len();
    let upper: usize = match start_before {
        Some(c) => if c == 0 {
            0
        } else if c - 1 <= n as u64 {
            (c - 1) as usize
        } else {
            n
        },
        None => n,
    };
    let count = if upper <= lim {
        upper
    } else {
        lim
    };
    let mut out: Vec<ProposalResponse> = Vec::new();
    let mut j: usize = 0;
    while j < count
        invariant
            j <= count,
            count <= upper,
            upper <= n,
            n == state.proposals.len(),
            state_wf(state.deep_view()),
            out.len() == j,
            forall|i: int| 0 <= i < j ==> out.deep_view()[i] == spec_proposal_response(
                state.deep_view(),
                (upper - i) as u64,
                *block,
            ),
        decreases count - j,
    {
        let resp = make_proposal_response(state, block, upper - 1 - j);
        let ghost out0 = out.deep_view();
        out.push(resp);
        proof {
            assert(out.deep_view()[out0.len() as int] == resp.deep_view());
            assert(forall|i: int| 0 <= i < out0.len() ==> out.deep_view()[i] == out0[i]);
            assert forall|i: int| 0 <= i < j + 1 implies out.deep_view()[i]
                == spec_proposal_response(state.deep_view(), (upper - i) as u64, *block) by {
                if i < j {
                    assert(out.deep_view()[i] == out0[i]);
                } else {
                    assert(out.deep_view()[i] == resp.deep_view());
                    assert(resp.deep_view() == spec_proposal_response(
                        state.deep_view(),
                        ((upper - 1 - j) + 1) as u64,
                        *block,
                    ));
                }
            }
        }
        j = j + 1;
    }
    ProposalListResponse { proposals: out }
}

/// Reports the ballot of one voter on one proposal, if it exists.
pub fn vote(state: &State, proposal_id: u64, voter: String) -> (r: VoteResponse)
    requires
        state_wf(state.deep_view()),
    ensures
        r.deep_view() == spec_vote_response(state.deep_view(), proposal_id, voter@),
{
    let ghost voter_v = voter@;
    if proposal_id == 0 || proposal_id > state.proposals.len() as u64 {
        proof {
            assert(VoteResponse { vote: None }.deep_view() =~~= (VoteResponseView {
                vote: None,
            }));
        }
        return VoteResponse { vote: None };
    }
    let idx = (proposal_id - 1) as usize;
    let p = &state.proposals[idx];
    proof {
        assert(crate::proposal::prop_wf(state.deep_view().proposals[idx as int]));
    }
    match find_ballot(&p.ballots, &voter) {
        Some(i) => {
            proof {
                lemma_ballot_for_at(p.ballots.deep_view(), i as int);
            }
            let b = &p.ballots[i];
            let r = VoteResponse {
                vote: Some(
                    VoteInfo { proposal_id, voter, vote: b.vote, weight: b.weight },
                ),
            };
            proof {
                assert(r.deep_view() =~~= spec_vote_response(
                    state.deep_view(),
                    proposal_id,
                    voter_v,
                ));
            }
            r
        },
        None => {
            proof {
                assert(VoteResponse { vote: None }.deep_view() =~~= (VoteResponseView {
                    vote: None,
                }));
            }
            VoteResponse { vote: None }
        },
    }
}

/// Reports the current weight entry of one account, if any.
pub fn voter(state: &State, address: String) -> (r: VoterResponse)
    requires
        state_wf(state.deep_view()),
    ensures
        r == spec_voter_response(state.deep_view(), address@),
{
    match find_voter(&state.voters, &address) {
        Some(i) => {
            proof {
                lemma_member_weight_at(state.deep_view().voters, i as int);
            }
            VoterResponse { weight: Some(state.voters[i].weight) }
        },
        None => VoterResponse { weight: None },
    }
}

/// Lists the ballots of one proposal, ascending by voter account,
/// starting strictly after the cursor. An unknown proposal yields an
/// empty page.
pub fn list_votes(
    state: &State,
    proposal_id: u64,
    start_after: Option<String>,
    limit: Option<u32>,
) -> (r: VoteListResponse)
    requires
        state_wf(state.deep_view()),
    ensures
        is_vote_page(
            state.deep_view(),
            proposal_id,
            start_after.deep_view(),
            limit,
            r.deep_view().votes,
        ),
{
    let mut out: Vec<VoteInfo> = Vec::new();
    if proposal_id == 0 || proposal_id > state.proposals.len() as u64 {
        return VoteListResponse { votes: out };
    }
    let idx = (proposal_id - 1) as usize;
    let p = &state.proposals[idx];
    proof {
        assert(crate::proposal::prop_wf(state.deep_view().proposals[idx as int]));
    }
    let ghost ballots = p.ballots.deep_view();
    let lim = effective_limit(limit);
    let n = p.ballots.len();
    let mut k: usize = 0;
    match &start_after {
        None => {},
        Some(c) => {
            loop
                invariant
                    k <= n,
                    n == p.ballots.len(),
                    ballots == p.ballots.deep_view(),
                    forall|j: int| 0 <= j < k ==> !lex_lt(c@, (#[trigger] ballots[j]).voter),
                ensures
                    k <= n,
                    forall|j: int| 0 <= j < k ==> !lex_lt(c@, (#[trigger] ballots[j]).voter),
                    k < n ==> lex_lt(c@, ballots[k as int].voter),
                decreases n - k,
            {
                if k >= n {
                    break;
                }
                if str_lt(c.as_str(), p.ballots[k].voter.as_str()) {
                    break;
                }
                k = k + 1;
            }
        },
    }
    let ghost start_k = k as int;
    proof {
        assert(is_ballot_cursor(ballots, start_after.deep_view(), start_k));
    }
    let avail = n - k;
    let count = if avail <= lim {
        avail
    } else {
        lim
    };
    let mut j: usize = 0;
    while j < count
        invariant
            j <= count,
            k + count <= n,
            n == p.ballots.len(),
            ballots == p.ballots.deep_view(),
            k as int == start_k,
            out.len() == j,
            forall|i: int| 0 <= i < j ==> out.deep_view()[i] == (VoteInfoView {
                proposal_id,
                voter: ballots[start_k + i].voter,
                vote: ballots[start_k + i].vote,
                weight: ballots[start_k + i].weight,
            }),
        decreases count - j,
    {
        let b = &p.ballots[k + j];
        let info = VoteInfo {
            proposal_id,
            voter: b.voter.clone(),
            vote: b.vote,
            weight: b.weight,
        };
        let ghost out0 = out.deep_view();
        out.push(info);
        proof {
            assert(out.deep_view()[out0.len() as int] == info.deep_view());
            assert(forall|i: int| 0 <= i < out0.len() ==> out.deep_view()[i] == out0[i]);
            assert forall|i: int| 0 <= i < j + 1 implies out.deep_view()[i] == (VoteInfoView {
                proposal_id,
                voter: ballots[start_k + i].voter,
                vote: ballots[start_k + i].vote,
                weight: ballots[start_k + i].weight,
            }) by {
                if i < j {
                    assert(out.deep_view()[i] == out0[i]);
                } else {
                    assert(out.deep_view()[i] == info.deep_view());
                }
            }
        }
        j = j + 1;
    }
    VoteListResponse { votes: out }
}

/// Lists the current voters, ascending by account, starting strictly
/// after the cursor.
pub fn list_voters(state: &State, start_after: Option<String>, limit: Option<u32>) -> (r:
    VoterListResponse)
    requires
        state_wf(state.deep_view()),
    ensures
        is_voter_page(state.deep_view(), start_after.deep_view(), limit, r.deep_view().voters),
{
    let ghost vs = state.voters.deep_view();
    let lim = effective_limit(limit);
    let n = state.voters.len();
    let mut k: usize = 0;
    match &start_after {
        None => {},
        Some(c) => {
            loop
                invariant
                    k <= n,
                    n == state.voters.len(),
                    vs == state.voters.deep_view(),
                    forall|j: int| 0 <= j < k ==> !lex_lt(c@, (#[trigger] vs[j]).addr),
                ensures
                    k <= n,
                    forall|j: int| 0 <= j < k ==> !lex_lt(c@, (#[trigger] vs[j]).addr),
                    k < n ==> lex_lt(c@, vs[k as int].addr),
                decreases n - k,
            {
                if k >= n {
                    break;
                }
                if str_lt(c.as_str(), state.voters[k].addr.as_str()) {
                    break;
                }
                k = k + 1;
            }
        },
    }
    let ghost start_k = k as int;
    proof {
        assert(is_voter_cursor(vs, start_after.deep_view(), start_k));
    }
    let avail = n - k;
    let count = if avail <= lim {
        avail
    } else {
        lim
    };
    let mut out: Vec<VoterDetail> = Vec::new();
    let mut j: usize = 0;
    while j < count
        invariant
            j <= count,
            k + count <= n,
            n == state.voters.len(),
            vs == state.voters.deep_view(),
            k as int == start_k,
            out.len() == j,
            forall|i: int| 0 <= i < j ==> out.deep_view()[i] == (VoterDetailView {
                addr: vs[start_k + i].addr,
                weight: vs[start_k + i].weight,
            }),
        decreases count - j,
    {
        let v = &state.voters[k + j];
        let detail = VoterDetail { addr: v.addr.clone(), weight: v.weight };
        let ghost out0 = out.deep_view();
        out.push(detail);
        proof {
            assert(out.deep_view()[out0.len() as int] == detail.deep_view());
            assert(forall|i: int| 0 <= i < out0.len() ==> out.deep_view()[i] == out0[i]);
            assert forall|i: int| 0 <= i < j + 1 implies out.deep_view()[i] == (VoterDetailView {
                addr: vs[start_k + i].addr,
                weight: vs[start_k + i].weight,
            }) by {
                if i < j {
                    assert(out.deep_view()[i] == out0[i]);
                } else {
                    assert(out.deep_view()[i] == detail.deep_view());
                }
            }
        }
        j = j + 1;
    }
    VoterListResponse { voters: out }
}

} // verus!
