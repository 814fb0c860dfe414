//! The whole governance state as one owned aggregate: the configuration,
//! the weight ledger and the proposal store live together, and every
//! entry point mutates them in the same transaction, so the running
//! total weight and the voter table can never drift apart.

use vstd::prelude::*;
use crate::expiration::Duration;
use crate::msg::{Voter, VoterView};
use crate::proposal::{prop_wf, Proposal, ProposalView};
use crate::threshold::{threshold_wf, Threshold};
use crate::voters::{sum_weights, voters_sorted};

verus! {

/// The deployment-wide configuration: the threshold rule, the maximum
/// voting period, and the running total of all voter weights.
#[derive(Clone, Copy, Debug, PartialEq, Eq, Structural)]
pub struct Config {
    pub threshold: Threshold,
    pub max_voting_period: Duration,
    pub total_weight: u64,
}

/// The persistent state of the governance module.
#[derive(Clone, Debug, PartialEq, Eq)]
pub struct State {
    pub config: Config,
    /// The token-ledger address that transfer actions are directed at.
    pub cw20_address: String,
    /// The weight ledger: current voters, sorted by account.
    pub voters: Vec<Voter>,
    /// The proposal store: proposal with identifier `i + 1` at index
    /// `i`. Proposals are never deleted, so the store is an append-only
    /// audit log.
    pub proposals: Vec<Proposal>,
}

#[verifier::ext_equal]
pub struct StateView {
    pub config: Config,
    pub cw20_address: Seq<char>,
    pub voters: Seq<VoterView>,
    pub proposals: Seq<ProposalView>,
}

impl DeepView for State {
    type V = StateView;

    open spec fn deep_view(&self) -> StateView {
        StateView {
            config: self.config,
            cw20_address: self.cw20_address@,
            voters: self.voters.deep_view(),
            proposals: self.proposals.deep_view(),
        }
    }
}

/// The invariant every entry point preserves: the voter table is sorted
/// and holds only positive weights, the running total equals the sum of
/// all current voter weights, the threshold rule is within its bounds,
/// and every stored proposal is well-formed.
pub open spec fn state_wf(s: StateView) -> bool {
    &&& voters_sorted(s.voters)
    &&& forall|i: int| 0 <= i < s.voters.len() ==> (#[trigger] s.voters[i]).weight >= 1
    &&& s.config.total_weight == sum_weights(s.voters)
    &&& threshold_wf(s.config.threshold)
    &&& forall|i: int| 0 <= i < s.proposals.len() ==> prop_wf(#[trigger] s.proposals[i])
}

/// Identifier `id` names a stored proposal: identifiers are sequential
/// starting at one.
pub open spec fn valid_proposal_id(s: StateView, id: u64) -> bool {
    1 <= id <= s.proposals.len()
}

/// The stored proposal named by `id`.
pub open spec fn proposal_at(s: StateView, id: u64) -> ProposalView {
    s.proposals[id - 1]
}

/// The running total always equals the sum of all current voter
/// weights: bookkeeping and ledger can never drift apart in any
/// reachable state.
pub proof fn lemma_total_weight_is_sum(s: StateView)
    requires
        state_wf(s),
    ensures
        s.config.total_weight == sum_weights(s.voters),
{
}

/// Copies a voter table; the copy has the same view.
pub fn clone_voters(voters: &Vec<Voter>) -> (r: Vec<Voter>)
    ensures
        r.deep_view() == voters.deep_view(),
{
    let n = voters.len();
    let mut r: Vec<Voter> = Vec::new();
    let mut i: usize = 0;
    while i < n
        invariant
            i <= n,
            n == voters.len(),
            r.deep_view() =~= voters.deep_view().take(i as int),
        decreases n - i,
    {
        let v = Voter { addr: voters[i].addr.clone(), weight: voters[i].weight };
        let ghost r0 = r.deep_view();
        r.push(v);
        proof {
            assert(v.deep_view() == voters.deep_view()[i as int]);
            assert(forall|j: int| 0 <= j < r0.len() ==> r.deep_view()[j] == r0[j]);
            assert(r.deep_view()[r0.len() as int] == v.deep_view());
            assert(r.deep_view() =~= voters.deep_view().take(i + 1));
        }
        i = i + 1;
    }
    proof {
        assert(voters.deep_view().take(n as int) =~= voters.deep_view());
    }
    r
}

} // verus!
