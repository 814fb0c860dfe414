//! The errors a call can fail with. A failing call leaves the state
//! exactly as it was; every error is scoped to the single failing call.

use vstd::prelude::*;

verus! {

#[derive(Clone, Copy, Debug, PartialEq, Eq, Structural)]
pub enum ContractError {
    /// Instantiation was given an empty voter list.
    NoVoters,
    /// An absolute-count threshold of zero weight.
    ZeroWeight,
    /// An absolute-count threshold above the total weight of the group.
    UnreachableWeight,
    /// A percentage threshold outside the range of fifty to one hundred
    /// percent.
    InvalidThreshold,
    /// A voter, or a voter to be added, with a weight of zero.
    InvalidVoteWeight,
    /// The same account listed twice in the initial voting group.
    DuplicateVoter,
    /// The caller is not allowed to perform the call: not a current
    /// voter, or not a member of the proposal's creation-time snapshot.
    Unauthorized,
    /// No proposal exists under the given identifier.
    NoSuchProposal,
    /// The proposal is no longer open for ballots.
    NotOpen,
    /// The proposal's voting period has expired.
    Expired,
    /// The proposal must expire before it can be closed.
    NotExpired,
    /// The requested expiration cannot be compared with the deployment's
    /// maximum voting period.
    WrongExpiration,
    /// The caller has already cast a ballot on this proposal.
    AlreadyVoted,
    /// The proposal has not passed, or has already been executed.
    WrongExecuteStatus,
    /// The proposal is not in a state that can be closed.
    WrongCloseStatus,
    /// The voter to be removed does not exist.
    VoterNotExist,
    /// Removing this voter would leave the group without any voter.
    LastVoter,
    /// A weight or time computation would exceed the machine range;
    /// the call fails closed instead of wrapping.
    Overflow,
}

impl ContractError {
    /// A short description of the error.
    pub fn message(&self) -> (m: &'static str) {
        match self {
            ContractError::NoVoters => "no voters",
            ContractError::ZeroWeight => "required weight cannot be zero",
            ContractError::UnreachableWeight => "not possible to reach required (passing) weight",
            ContractError::InvalidThreshold => "invalid threshold percentage",
            ContractError::InvalidVoteWeight => "vote weight must be greater than zero",
            ContractError::DuplicateVoter => "voter listed more than once",
            ContractError::Unauthorized => "unauthorized",
            ContractError::NoSuchProposal => "proposal does not exist",
            ContractError::NotOpen => "proposal is not open",
            ContractError::Expired => "proposal voting period has expired",
            ContractError::NotExpired => "proposal must expire before you can close it",
            ContractError::WrongExpiration => "wrong expiration option",
            ContractError::AlreadyVoted => "already voted on this proposal",
            ContractError::WrongExecuteStatus => "proposal must have passed and not yet been executed",
            ContractError::WrongCloseStatus => "cannot close completed or passed proposals",
            ContractError::VoterNotExist => "voter does not exist",
            ContractError::LastVoter => "must have at least one voter",
            ContractError::Overflow => "arithmetic overflow",
        }
    }
}

} // verus!
