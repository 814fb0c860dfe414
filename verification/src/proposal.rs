//! Proposals, ballots and the threshold evaluator.
//!
//! A proposal carries a snapshot of the threshold rule, the total
//! weight, and the membership taken at its creation; later membership
//! changes never alter them. Its status is logically a pure function of
//! the tally, the snapshot and the ambient block; the stored status
//! field is a memoized hint that is re-derived before every decision.

use vstd::prelude::*;
use crate::expiration::{spec_is_expired, BlockInfo, Expiration};
use crate::msg::{ProposalType, ProposalTypeView, Voter, VoterView};
use crate::order::{lemma_lex_total, lemma_lex_trans, lex_lt, str_lt};
use crate::threshold::{threshold_wf, Threshold, DECIMAL_FRACTIONAL};
use crate::voters::{is_member, voters_sorted};

verus! {

/// A ballot's choice.
#[derive(Clone, Copy, Debug, PartialEq, Eq, Structural)]
pub enum Vote {
    Yes,
    No,
    Abstain,
    Veto,
}

/// Where a proposal stands in its lifecycle. `Rejected` and `Executed`
/// are terminal.
#[derive(Clone, Copy, Debug, PartialEq, Eq, Structural)]
pub enum Status {
    Open,
    Rejected,
    Passed,
    Executed,
}

/// The aggregated weight cast for each choice.
#[derive(Clone, Copy, Debug, PartialEq, Eq, Structural)]
pub struct Votes {
    pub yes: u64,
    pub no: u64,
    pub abstain: u64,
    pub veto: u64,
}

impl Votes {
    /// A tally holding one yes ballot of the given weight.
    pub fn yes_of(init_weight: u64) -> (v: Votes)
        ensures
            v == (Votes { yes: init_weight, no: 0, abstain: 0, veto: 0 }),
    {
        Votes { yes: init_weight, no: 0, abstain: 0, veto: 0 }
    }
}

/// One voter's recorded choice and weight for one proposal. The weight
/// is fixed at cast time and never retroactively updated.
#[derive(Clone, Debug, PartialEq, Eq)]
pub struct Ballot {
    pub voter: String,
    pub vote: Vote,
    pub weight: u64,
}

pub struct BallotView {
    pub voter: Seq<char>,
    pub vote: Vote,
    pub weight: u64,
}

impl DeepView for Ballot {
    type V = BallotView;

    open spec fn deep_view(&self) -> BallotView {
        BallotView { voter: self.voter@, vote: self.vote, weight: self.weight }
    }
}

/// A deposit attached to a proposal. The data model carries the field,
/// but this design never populates or redeems it.
#[derive(Clone, Debug, PartialEq, Eq)]
pub struct DepositInfo {
    pub amount: u128,
    pub denom: String,
}

pub struct DepositInfoView {
    pub amount: u128,
    pub denom: Seq<char>,
}

impl DeepView for DepositInfo {
    type V = DepositInfoView;

    open spec fn deep_view(&self) -> DepositInfoView {
        DepositInfoView { amount: self.amount, denom: self.denom@ }
    }
}

/// A pending or resolved request to perform exactly one typed action,
/// subject to weighted approval.
#[derive(Clone, Debug, PartialEq, Eq)]
pub struct Proposal {
    pub title: String,
    pub description: String,
    /// The account that created the proposal.
    pub proposer: String,
    pub start_height: u64,
    pub expires: Expiration,
    /// The action performed exactly once if the proposal passes.
    pub proposal_type: ProposalType,
    /// Memoized status; re-derived before any decision.
    pub status: Status,
    /// The threshold rule snapshotted at creation.
    pub threshold: Threshold,
    /// The total group weight snapshotted at creation.
    pub total_weight: u64,
    pub votes: Votes,
    pub deposit: Option<DepositInfo>,
    /// All cast ballots, sorted by voter account.
    pub ballots: Vec<Ballot>,
    /// The membership snapshotted at creation; only these accounts may
    /// cast ballots on this proposal.
    pub voters: Vec<Voter>,
}

#[verifier::ext_equal]
pub struct ProposalView {
    pub title: Seq<char>,
    pub description: Seq<char>,
    pub proposer: Seq<char>,
    pub start_height: u64,
    pub expires: Expiration,
    pub proposal_type: ProposalTypeView,
    pub status: Status,
    pub threshold: Threshold,
    pub total_weight: u64,
    pub votes: Votes,
    pub deposit: Option<DepositInfoView>,
    pub ballots: Seq<BallotView>,
    pub voters: Seq<VoterView>,
}

impl DeepView for Proposal {
    type V = ProposalView;

    open spec fn deep_view(&self) -> ProposalView {
        ProposalView {
            title: self.title@,
            description: self.description@,
            proposer: self.proposer@,
            start_height: self.start_height,
            expires: self.expires,
            proposal_type: self.proposal_type.deep_view(),
            status: self.status,
            threshold: self.threshold,
            total_weight: self.total_weight,
            votes: self.votes,
            deposit: self.deposit.deep_view(),
            ballots: self.ballots.deep_view(),
            voters: self.voters.deep_view(),
        }
    }
}

/// Ballots are kept strictly ascending by voter account, so each
/// account casts at most one ballot.
pub open spec fn ballots_sorted(s: Seq<BallotView>) -> bool {
    forall|i: int, j: int| #![trigger s[i], s[j]] 0 <= i < j < s.len() ==> lex_lt(s[i].voter, s[j].voter)
}

/// Account `a` has cast a ballot.
pub open spec fn has_ballot(s: Seq<BallotView>, a: Seq<char>) -> bool {
    exists|i: int| 0 <= i < s.len() && (#[trigger] s[i]).voter == a
}

/// The ballot cast by account `a` (meaningful only when `has_ballot`).
pub open spec fn ballot_for(s: Seq<BallotView>, a: Seq<char>) -> BallotView {
    let i = choose|i: int| 0 <= i < s.len() && (#[trigger] s[i]).voter == a;
    s[i]
}

/// The weight cast for choice `v` over the given ballots.
pub open spec fn spec_tally(s: Seq<BallotView>, v: Vote) -> int
    decreases s.len(),
{
    if s.len() == 0 {
        0
    } else {
        spec_tally(s.drop_last(), v) + if s.last().vote == v {
            s.last().weight as int
        } else {
            0
        }
    }
}

/// In a sorted ballot list an account determines its index.
pub proof fn lemma_ballot_for_at(s: Seq<BallotView>, i: int)
    requires
        ballots_sorted(s),
        0 <= i < s.len(),
    ensures
        ballot_for(s, s[i].voter) == s[i],
{
    let a = s[i].voter;
    let j = choose|j: int| 0 <= j < s.len() && (#[trigger] s[j]).voter == a;
    if i != j {
        lemma_lex_total(s[i].voter, s[j].voter);
    }
}

pub proof fn lemma_tally_insert(s: Seq<BallotView>, k: int, b: BallotView, v: Vote)
    requires
        0 <= k <= s.len(),
    ensures
        spec_tally(s.insert(k, b), v) == spec_tally(s, v) + if b.vote == v {
            b.weight as int
        } else {
            0
        },
    decreases s.len(),
{
    let t = s.insert(k, b);
    if k == s.len() {
        assert(t.drop_last() =~= s);
    } else {
        assert(t.drop_last() =~= s.drop_last().insert(k, b));
        assert(t.last() == s.last());
        lemma_tally_insert(s.drop_last(), k, b, v);
    }
}

/// The tally of a single ballot is that ballot's weight, on its choice
/// alone.
pub proof fn lemma_tally_singleton(b: BallotView)
    ensures
        forall|v: Vote| #[trigger] spec_tally(seq![b], v) == if b.vote == v {
            b.weight as int
        } else {
            0
        },
{
    assert forall|v: Vote| #[trigger] spec_tally(seq![b], v) == if b.vote == v {
        b.weight as int
    } else {
        0
    } by {
        assert(spec_tally(Seq::<BallotView>::empty(), v) == 0);
        assert(seq![b].drop_last() =~= Seq::<BallotView>::empty());
        assert(seq![b].last() == b);
        assert(seq![b].len() == 1);
    }
}

/// The well-formedness a proposal keeps for its whole lifetime: the
/// ballot list is sorted, the tally agrees with the ballots, every
/// ballot was cast by a member of the creation snapshot, the snapshot
/// itself is a well-formed voter table, the snapshotted rule is within
/// its bounds, an add-voter action carries a positive weight, and the
/// deposit is never populated.
pub open spec fn prop_wf(p: ProposalView) -> bool {
    &&& ballots_sorted(p.ballots)
    &&& p.votes.yes == spec_tally(p.ballots, Vote::Yes)
    &&& p.votes.no == spec_tally(p.ballots, Vote::No)
    &&& p.votes.abstain == spec_tally(p.ballots, Vote::Abstain)
    &&& p.votes.veto == spec_tally(p.ballots, Vote::Veto)
    &&& forall|i: int| 0 <= i < p.ballots.len() ==> is_member(p.voters,
        (#[trigger] p.ballots[i]).voter)
    &&& voters_sorted(p.voters)
    &&& forall|i: int| 0 <= i < p.voters.len() ==> (#[trigger] p.voters[i]).weight >= 1
    &&& threshold_wf(p.threshold)
    &&& (p.proposal_type matches ProposalTypeView::AddVoter { vote_weight, .. }
        ==> vote_weight >= 1)
    &&& p.deposit is None
}

/// The weight cast so far, over all choices.
pub open spec fn spec_cast_weight(p: ProposalView) -> int {
    p.votes.yes + p.votes.no + p.votes.abstain + p.votes.veto
}

/// The weight of the snapshot that has not been cast yet. Ballots
/// record current weights, so when the membership inflated after the
/// snapshot the cast weight can exceed it; nothing is uncommitted then.
pub open spec fn spec_uncommitted(p: ProposalView) -> int {
    if spec_cast_weight(p) <= p.total_weight {
        p.total_weight - spec_cast_weight(p)
    } else {
        0
    }
}

/// The proposal meets its threshold with the yes-weight cast so far.
/// Percentages compare as exact rationals: yes / total >= percentage.
pub open spec fn spec_passed_now(p: ProposalView) -> bool {
    match p.threshold {
        Threshold::AbsoluteCount { weight } => p.votes.yes >= weight,
        Threshold::AbsolutePercentage { percentage } => p.votes.yes * DECIMAL_FRACTIONAL
            >= p.total_weight * percentage.atomics,
    }
}

/// No future ballots can make the proposal pass: even if all of the
/// uncommitted snapshot weight were cast as yes, the threshold would
/// still be missed. Weight already cast as no, abstain or veto can
/// never become yes, because ballots are immutable.
pub open spec fn spec_cannot_pass(p: ProposalView) -> bool {
    match p.threshold {
        Threshold::AbsoluteCount { weight } => p.votes.yes + spec_uncommitted(p) < weight,
        Threshold::AbsolutePercentage { percentage } => (p.votes.yes + spec_uncommitted(p))
            * DECIMAL_FRACTIONAL < p.total_weight * percentage.atomics,
    }
}

/// The tally alone already decides the proposal, whatever the clock says.
pub open spec fn spec_threshold_decided(p: ProposalView) -> bool {
    spec_passed_now(p) || spec_cannot_pass(p)
}

/// What the status of `p` is at block `b`: the stored status when it is
/// no longer open; otherwise passed once the threshold is met (even if
/// the proposal has nominally expired since — the cast ballots are
/// immutable), and rejected once it can no longer pass or has expired.
pub open spec fn spec_current_status(p: ProposalView, b: BlockInfo) -> Status {
    if p.status != Status::Open {
        p.status
    } else if spec_passed_now(p) {
        Status::Passed
    } else if spec_cannot_pass(p) || spec_is_expired(p.expires, b) {
        Status::Rejected
    } else {
        Status::Open
    }
}

impl Proposal {
    /// The threshold is met by the yes-weight cast so far.
    pub fn is_passed(&self) -> (r: bool)
        requires
            threshold_wf(self.threshold),
        ensures
            r == spec_passed_now(self.deep_view()),
    {
        match &self.threshold {
            Threshold::AbsoluteCount { weight } => self.votes.yes >= *weight,
            Threshold::AbsolutePercentage { percentage } => {
                proof {
                    lemma_weight_times_atomics_in_range(
                        self.total_weight,
                        percentage.atomics,
                    );
                }
                let lhs: u128 = (self.votes.yes as u128) * DECIMAL_FRACTIONAL;
                let rhs: u128 = (self.total_weight as u128) * percentage.atomics;
                lhs >= rhs
            },
        }
    }

    /// No future ballots can make the proposal pass.
    pub fn cannot_pass(&self) -> (r: bool)
        requires
            threshold_wf(self.threshold),
        ensures
            r == spec_cannot_pass(self.deep_view()),
    {
        let cast: u128 = self.votes.yes as u128 + self.votes.no as u128
            + self.votes.abstain as u128 + self.votes.veto as u128;
        let total: u128 = self.total_weight as u128;
        let uncommitted: u128 = if cast <= total {
            total - cast
        } else {
            0
        };
        let reachable: u128 = self.votes.yes as u128 + uncommitted;
        match &self.threshold {
            Threshold::AbsoluteCount { weight } => reachable < *weight as u128,
            Threshold::AbsolutePercentage { percentage } => {
                proof {
                    lemma_weight_times_atomics_in_range(
                        self.total_weight,
                        percentage.atomics,
                    );
                }
                reachable * DECIMAL_FRACTIONAL < total * percentage.atomics
            },
        }
    }

    /// The tally alone already decides the proposal.
    pub fn threshold_decided(&self) -> (r: bool)
        requires
            threshold_wf(self.threshold),
        ensures
            r == spec_threshold_decided(self.deep_view()),
    {
        self.is_passed() || self.cannot_pass()
    }

    /// Re-derives the status at block `b` without touching the stored
    /// field; queries use this so that reading never mutates.
    pub fn current_status(&self, b: &BlockInfo) -> (s: Status)
        requires
            threshold_wf(self.threshold),
        ensures
            s == spec_current_status(self.deep_view(), *b),
    {
        if self.status != Status::Open {
            self.status
        } else if self.is_passed() {
            Status::Passed
        } else if self.cannot_pass() || self.expires.is_expired(b) {
            Status::Rejected
        } else {
            Status::Open
        }
    }

    /// Writes the re-derived status back into the stored field.
    pub fn update_status(&mut self, b: &BlockInfo)
        requires
            threshold_wf(old(self).threshold),
        ensures
            *final(self) == (Proposal {
                status: spec_current_status(old(self).deep_view(), *b),
                ..*old(self)
            }),
    {
        self.status = self.current_status(b);
    }
}

/// A snapshot total times a well-formed percentage stays within the
/// unsigned 128-bit range.
proof fn lemma_weight_times_atomics_in_range(total_weight: u64, atomics: u128)
    requires
        atomics <= 1_000_000_000_000_000_000,
    ensures
        total_weight * atomics <= u128::MAX,
        (total_weight + u64::MAX + 1) * 1_000_000_000_000_000_000 <= u128::MAX,
{
    assert(total_weight * atomics <= u128::MAX) by (nonlinear_arith)
        requires
            total_weight <= u64::MAX,
            atomics <= 1_000_000_000_000_000_000,
    ;
}

/// Finds the index of the ballot of account `addr`, if one was cast.
pub fn find_ballot(ballots: &Vec<Ballot>, addr: &String) -> (r: Option<usize>)
    ensures
        match r {
            Some(i) => i < ballots.len() && ballots.deep_view()[i as int].voter == addr@,
            None => !has_ballot(ballots.deep_view(), addr@),
        },
{
    let n = ballots.len();
    let mut i: usize = 0;
    while i < n
        invariant
            i <= n,
            n == ballots.len(),
            forall|j: int| 0 <= j < i ==> (#[trigger] ballots.deep_view()[j]).voter != addr@,
        decreases n - i,
    {
        if ballots[i].voter == *addr {
            return Some(i);
        }
        i = i + 1;
    }
    None
}

/// Inserts a new ballot, keeping the list sorted by voter account.
pub fn insert_ballot(ballots: &mut Vec<Ballot>, b: Ballot)
    requires
        ballots_sorted(old(ballots).deep_view()),
        !has_ballot(old(ballots).deep_view(), b.voter@),
    ensures
        ballots_sorted(final(ballots).deep_view()),
        final(ballots).len() == old(ballots).len() + 1,
        has_ballot(final(ballots).deep_view(), b.voter@),
        ballot_for(final(ballots).deep_view(), b.voter@) == b.deep_view(),
        forall|a: Seq<char>| a != b.voter@ ==> #[trigger] has_ballot(final(ballots).deep_view(), a)
            == has_ballot(old(ballots).deep_view(), a),
        forall|a: Seq<char>| a != b.voter@ && has_ballot(old(ballots).deep_view(), a)
            ==> #[trigger] ballot_for(final(ballots).deep_view(), a)
            == ballot_for(old(ballots).deep_view(), a),
        forall|v: Vote| #[trigger] spec_tally(final(ballots).deep_view(), v)
            == spec_tally(old(ballots).deep_view(), v) + if b.vote == v {
            b.weight as int
        } else {
            0
        },
{
    let ghost s0 = old(ballots).deep_view();
    let n = ballots.len();
    let mut k: usize = 0;
    loop
        invariant
            k <= n,
            n == ballots.len(),
            ballots.deep_view() == s0,
            ballots_sorted(s0),
            forall|j: int| 0 <= j < k ==> lex_lt((#[trigger] s0[j]).voter, b.voter@),
        ensures
            k <= n,
            forall|j: int| 0 <= j < k ==> lex_lt((#[trigger] s0[j]).voter, b.voter@),
            k < n ==> !lex_lt(s0[k as int].voter, b.voter@),
        decreases n - k,
    {
        if k >= n {
            break;
        }
        if !str_lt(ballots[k].voter.as_str(), b.voter.as_str()) {
            break;
        }
        k = k + 1;
    }
    proof {
        if k < n {
            // the entry at k is not below the new account; it cannot be
            // equal either, because no ballot of this account exists
            assert(s0[k as int].voter != b.voter@);
            lemma_lex_total(s0[k as int].voter, b.voter@);
            assert forall|j: int| k < j < n implies lex_lt(b.voter@,
                (#[trigger] s0[j]).voter) by {
                lemma_lex_trans(b.voter@, s0[k as int].voter, s0[j].voter);
            }
        }
    }
    let ghost bv = b.deep_view();
    let ghost s1 = s0.insert(k as int, bv);
    ballots.insert(k, b);
    proof {
        assert(ballots.deep_view() =~= s1);
        assert forall|v: Vote| #[trigger] spec_tally(s1, v) == spec_tally(s0, v) + if bv.vote
            == v {
            bv.weight as int
        } else {
            0
        } by {
            lemma_tally_insert(s0, k as int, bv, v);
        }
        lemma_insert_ballot_facts(s0, k as int, bv);
    }
}

proof fn lemma_insert_ballot_facts(s: Seq<BallotView>, k: int, b: BallotView)
    requires
        ballots_sorted(s),
        0 <= k <= s.len(),
        forall|j: int| 0 <= j < k ==> lex_lt((#[trigger] s[j]).voter, b.voter),
        forall|j: int| k <= j < s.len() ==> lex_lt(b.voter, (#[trigger] s[j]).voter),
    ensures
        ballots_sorted(s.insert(k, b)),
        has_ballot(s.insert(k, b), b.voter),
        ballot_for(s.insert(k, b), b.voter) == b,
        forall|a: Seq<char>| a != b.voter ==> #[trigger] has_ballot(s.insert(k, b), a)
            == has_ballot(s, a),
        forall|a: Seq<char>| a != b.voter && has_ballot(s, a)
            ==> #[trigger] ballot_for(s.insert(k, b), a) == ballot_for(s, a),
{
    let t = s.insert(k, b);
    assert forall|i: int, j: int| #![trigger t[i], t[j]] 0 <= i < j < t.len() implies lex_lt(t[i].voter,
        t[j].voter) by {
        if i < k && j > k {
            assert(t[i] == s[i] && t[j] == s[j - 1]);
        }
    }
    assert(t[k].voter == b.voter);
    lemma_ballot_for_at(t, k);
    assert forall|a: Seq<char>| a != b.voter implies #[trigger] has_ballot(t, a)
        == has_ballot(s, a) by {
        if has_ballot(t, a) {
            let i = choose|i: int| 0 <= i < t.len() && (#[trigger] t[i]).voter == a;
            if i < k {
                assert(s[i].voter == a);
            } else {
                assert(s[i - 1].voter == a);
            }
        }
        if has_ballot(s, a) {
            let i = choose|i: int| 0 <= i < s.len() && (#[trigger] s[i]).voter == a;
            if i < k {
                assert(t[i].voter == a);
            } else {
                assert(t[i + 1].voter == a);
            }
        }
    }
    assert forall|a: Seq<char>| a != b.voter && has_ballot(s, a)
        implies #[trigger] ballot_for(t, a) == ballot_for(s, a) by {
        let i = choose|i: int| 0 <= i < s.len() && (#[trigger] s[i]).voter == a;
        lemma_ballot_for_at(s, i);
        if i < k {
            assert(t[i].voter == a);
            lemma_ballot_for_at(t, i);
        } else {
            assert(t[i + 1].voter == a);
            lemma_ballot_for_at(t, i + 1);
        }
    }
}

} // verus!
