//! Request, response and event shapes of the governance module.
//!
//! Every type here is plain data. The `...View` types are the
//! mathematical images of the executable types: strings become
//! character sequences and vectors become sequences, so that contracts
//! can speak about values rather than allocations.

use vstd::prelude::*;
use crate::expiration::{Duration, Expiration};
use crate::proposal::{DepositInfo, DepositInfoView, Status, Vote};
use crate::threshold::{Threshold, ThresholdResponse};

verus! {

/// One member of the voting group: an account and its voting weight.
#[derive(Clone, Debug, PartialEq, Eq)]
pub struct Voter {
    pub addr: String,
    pub weight: u64,
}

pub struct VoterView {
    pub addr: Seq<char>,
    pub weight: u64,
}

impl DeepView for Voter {
    type V = VoterView;

    open spec fn deep_view(&self) -> VoterView {
        VoterView { addr: self.addr@, weight: self.weight }
    }
}

/// The closed set of actions a passed proposal may trigger.
#[derive(Clone, Debug, PartialEq, Eq)]
pub enum ProposalType {
    /// Instruct the token ledger to move `amount` from this module's
    /// custody to `to`.
    Send { to: String, amount: u128 },
    /// Write (or overwrite) the voting weight of `address`.
    AddVoter { address: String, vote_weight: u64 },
    /// Delete the voting weight entry of `address`.
    RemoveVoter { address: String },
}

pub enum ProposalTypeView {
    Send { to: Seq<char>, amount: u128 },
    AddVoter { address: Seq<char>, vote_weight: u64 },
    RemoveVoter { address: Seq<char> },
}

impl DeepView for ProposalType {
    type V = ProposalTypeView;

    open spec fn deep_view(&self) -> ProposalTypeView {
        match self {
            ProposalType::Send { to, amount } => ProposalTypeView::Send {
                to: to@,
                amount: *amount,
            },
            ProposalType::AddVoter { address, vote_weight } => ProposalTypeView::AddVoter {
                address: address@,
                vote_weight: *vote_weight,
            },
            ProposalType::RemoveVoter { address } => ProposalTypeView::RemoveVoter {
                address: address@,
            },
        }
    }
}

/// The instantiation request: the initial voting group, the threshold
/// rule, the maximum voting period, and the token-ledger address that
/// transfer actions are directed at.
#[derive(Clone, Debug, PartialEq, Eq)]
pub struct InstantiateMsg {
    pub voters: Vec<Voter>,
    pub threshold: Threshold,
    pub max_voting_period: Duration,
    pub cw20_address: String,
}

/// The state-changing requests.
#[derive(Clone, Debug, PartialEq, Eq)]
pub enum ExecuteMsg {
    Propose {
        title: String,
        description: String,
        proposal_type: ProposalType,
        latest: Option<Expiration>,
    },
    Vote { proposal_id: u64, vote: Vote },
    Execute { proposal_id: u64 },
    Close { proposal_id: u64 },
}

/// The read-only requests.
#[derive(Clone, Debug, PartialEq, Eq)]
pub enum QueryMsg {
    Threshold,
    Proposal { proposal_id: u64 },
    ListProposals { start_after: Option<u64>, limit: Option<u32> },
    ReverseProposals { start_before: Option<u64>, limit: Option<u32> },
    Vote { proposal_id: u64, voter: String },
    ListVotes { proposal_id: u64, start_after: Option<String>, limit: Option<u32> },
    Voter { address: String },
    ListVoters { start_after: Option<String>, limit: Option<u32> },
}

/// An outbound instruction to the token-ledger collaborator.
#[derive(Clone, Debug, PartialEq, Eq)]
pub enum TokenMsg {
    Transfer { token_address: String, recipient: String, amount: u128 },
}

pub enum TokenMsgView {
    Transfer { token_address: Seq<char>, recipient: Seq<char>, amount: u128 },
}

impl DeepView for TokenMsg {
    type V = TokenMsgView;

    open spec fn deep_view(&self) -> TokenMsgView {
        match self {
            TokenMsg::Transfer { token_address, recipient, amount } => TokenMsgView::Transfer {
                token_address: token_address@,
                recipient: recipient@,
                amount: *amount,
            },
        }
    }
}

/// A structured record of what a state-changing call did.
#[derive(Clone, Debug, PartialEq, Eq)]
pub enum Event {
    Proposed { proposal_id: u64, proposer: String, status: Status },
    Voted { proposal_id: u64, voter: String, vote: Vote, status: Status },
    Executed { proposal_id: u64 },
    Closed { proposal_id: u64 },
    VoterAdded { address: String, weight: u64 },
    VoterRemoved { address: String },
    TransferRequested { to: String, amount: u128 },
}

pub enum EventView {
    Proposed { proposal_id: u64, proposer: Seq<char>, status: Status },
    Voted { proposal_id: u64, voter: Seq<char>, vote: Vote, status: Status },
    Executed { proposal_id: u64 },
    Closed { proposal_id: u64 },
    VoterAdded { address: Seq<char>, weight: u64 },
    VoterRemoved { address: Seq<char> },
    TransferRequested { to: Seq<char>, amount: u128 },
}

impl DeepView for Event {
    type V = EventView;

    open spec fn deep_view(&self) -> EventView {
        match self {
            Event::Proposed { proposal_id, proposer, status } => EventView::Proposed {
                proposal_id: *proposal_id,
                proposer: proposer@,
                status: *status,
            },
            Event::Voted { proposal_id, voter, vote, status } => EventView::Voted {
                proposal_id: *proposal_id,
                voter: voter@,
                vote: *vote,
                status: *status,
            },
            Event::Executed { proposal_id } => EventView::Executed { proposal_id: *proposal_id },
            Event::Closed { proposal_id } => EventView::Closed { proposal_id: *proposal_id },
            Event::VoterAdded { address, weight } => EventView::VoterAdded {
                address: address@,
                weight: *weight,
            },
            Event::VoterRemoved { address } => EventView::VoterRemoved { address: address@ },
            Event::TransferRequested { to, amount } => EventView::TransferRequested {
                to: to@,
                amount: *amount,
            },
        }
    }
}

/// What a successful state-changing call hands back: the instructions
/// to dispatch to collaborators, and the events describing the call.
#[derive(Clone, Debug, PartialEq, Eq)]
pub struct Response {
    pub messages: Vec<TokenMsg>,
    pub events: Vec<Event>,
}

#[verifier::ext_equal]
pub struct ResponseView {
    pub messages: Seq<TokenMsgView>,
    pub events: Seq<EventView>,
}

impl DeepView for Response {
    type V = ResponseView;

    open spec fn deep_view(&self) -> ResponseView {
        ResponseView { messages: self.messages.deep_view(), events: self.events.deep_view() }
    }
}

/// One recorded ballot, as reported by queries.
#[derive(Clone, Debug, PartialEq, Eq)]
pub struct VoteInfo {
    pub proposal_id: u64,
    pub voter: String,
    pub vote: Vote,
    pub weight: u64,
}

pub struct VoteInfoView {
    pub proposal_id: u64,
    pub voter: Seq<char>,
    pub vote: Vote,
    pub weight: u64,
}

impl DeepView for VoteInfo {
    type V = VoteInfoView;

    open spec fn deep_view(&self) -> VoteInfoView {
        VoteInfoView {
            proposal_id: self.proposal_id,
            voter: self.voter@,
            vote: self.vote,
            weight: self.weight,
        }
    }
}

#[derive(Clone, Debug, PartialEq, Eq)]
pub struct VoteResponse {
    pub vote: Option<VoteInfo>,
}

#[verifier::ext_equal]
pub struct VoteResponseView {
    pub vote: Option<VoteInfoView>,
}

impl DeepView for VoteResponse {
    type V = VoteResponseView;

    open spec fn deep_view(&self) -> VoteResponseView {
        VoteResponseView { vote: self.vote.deep_view() }
    }
}

#[derive(Clone, Debug, PartialEq, Eq)]
pub struct VoteListResponse {
    pub votes: Vec<VoteInfo>,
}

#[verifier::ext_equal]
pub struct VoteListResponseView {
    pub votes: Seq<VoteInfoView>,
}

impl DeepView for VoteListResponse {
    type V = VoteListResponseView;

    open spec fn deep_view(&self) -> VoteListResponseView {
        VoteListResponseView { votes: self.votes.deep_view() }
    }
}

/// One voter and its weight, as reported by listings.
#[derive(Clone, Debug, PartialEq, Eq)]
pub struct VoterDetail {
    pub addr: String,
    pub weight: u64,
}

pub struct VoterDetailView {
    pub addr: Seq<char>,
    pub weight: u64,
}

impl DeepView for VoterDetail {
    type V = VoterDetailView;

    open spec fn deep_view(&self) -> VoterDetailView {
        VoterDetailView { addr: self.addr@, weight: self.weight }
    }
}

#[derive(Clone, Copy, Debug, PartialEq, Eq, Structural)]
pub struct VoterResponse {
    pub weight: Option<u64>,
}

#[derive(Clone, Debug, PartialEq, Eq)]
pub struct VoterListResponse {
    pub voters: Vec<VoterDetail>,
}

#[verifier::ext_equal]
pub struct VoterListResponseView {
    pub voters: Seq<VoterDetailView>,
}

impl DeepView for VoterListResponse {
    type V = VoterListResponseView;

    open spec fn deep_view(&self) -> VoterListResponseView {
        VoterListResponseView { voters: self.voters.deep_view() }
    }
}

/// One proposal, as reported by queries. The threshold response is the
/// rule and total weight snapshotted when this proposal was created;
/// later membership changes do not alter it.
#[derive(Clone, Debug, PartialEq, Eq)]
pub struct ProposalResponse {
    pub id: u64,
    pub title: String,
    pub description: String,
    pub proposal_type: ProposalType,
    pub status: Status,
    pub expires: Expiration,
    pub threshold: ThresholdResponse,
    pub proposer: String,
    pub deposit: Option<DepositInfo>,
}

#[verifier::ext_equal]
pub struct ProposalResponseView {
    pub id: u64,
    pub title: Seq<char>,
    pub description: Seq<char>,
    pub proposal_type: ProposalTypeView,
    pub status: Status,
    pub expires: Expiration,
    pub threshold: ThresholdResponse,
    pub proposer: Seq<char>,
    pub deposit: Option<DepositInfoView>,
}

impl DeepView for ProposalResponse {
    type V = ProposalResponseView;

    open spec fn deep_view(&self) -> ProposalResponseView {
        ProposalResponseView {
            id: self.id,
            title: self.title@,
            description: self.description@,
            proposal_type: self.proposal_type.deep_view(),
            status: self.status,
            expires: self.expires,
            threshold: self.threshold,
            proposer: self.proposer@,
            deposit: self.deposit.deep_view(),
        }
    }
}

#[derive(Clone, Debug, PartialEq, Eq)]
pub struct ProposalListResponse {
    pub proposals: Vec<ProposalResponse>,
}

#[verifier::ext_equal]
pub struct ProposalListResponseView {
    pub proposals: Seq<ProposalResponseView>,
}

impl DeepView for ProposalListResponse {
    type V = ProposalListResponseView;

    open spec fn deep_view(&self) -> ProposalListResponseView {
        ProposalListResponseView { proposals: self.proposals.deep_view() }
    }
}

/// The mathematical image of a call result: the response by its view,
/// errors as they are.
pub open spec fn result_view(r: Result<Response, crate::error::ContractError>) -> Result<
    ResponseView,
    crate::error::ContractError,
> {
    match r {
        Ok(resp) => Ok(resp.deep_view()),
        Err(e) => Err(e),
    }
}

/// The typed answer of the query dispatcher, one variant per request.
#[derive(Clone, Debug, PartialEq, Eq)]
pub enum QueryAnswer {
    Threshold(ThresholdResponse),
    Proposal(ProposalResponse),
    ProposalList(ProposalListResponse),
    Vote(VoteResponse),
    VoteList(VoteListResponse),
    Voter(VoterResponse),
    VoterList(VoterListResponse),
}

} // verus!
