//! Threshold rules: the quorum policy a proposal must meet to pass.
//!
//! A rule is either a fixed weight of yes votes, or a percentage of the
//! total voting weight. Percentages are fixed-point fractions and all
//! comparisons against them are exact integer comparisons, so two
//! evaluations of the same tally can never disagree by rounding.

use vstd::prelude::*;
use crate::error::ContractError;

verus! {

/// Fixed-point scale: a fraction's value is `atomics / DECIMAL_FRACTIONAL`.
pub const DECIMAL_FRACTIONAL: u128 = 1_000_000_000_000_000_000;

/// A fixed-point fraction with eighteen decimal places; the represented
/// value is `atomics / DECIMAL_FRACTIONAL`.
#[derive(Clone, Copy, Debug, PartialEq, Eq, Structural)]
pub struct Decimal {
    pub atomics: u128,
}

impl Decimal {
    /// The fraction `p / 100`.
    pub fn percent(p: u64) -> (d: Decimal)
        ensures
            d.atomics == p as u128 * 10_000_000_000_000_000,
    {
        Decimal { atomics: p as u128 * 10_000_000_000_000_000 }
    }

    /// The fraction one.
    pub fn one() -> (d: Decimal)
        ensures
            d.atomics == DECIMAL_FRACTIONAL,
    {
        Decimal { atomics: DECIMAL_FRACTIONAL }
    }
}

/// The quorum policy of a deployment, fixed at instantiation and
/// snapshotted into every proposal at creation.
#[derive(Clone, Copy, Debug, PartialEq, Eq, Structural)]
pub enum Threshold {
    /// Passes as soon as `weight` yes-weight has been cast.
    AbsoluteCount { weight: u64 },
    /// Passes as soon as the cast yes-weight is at least `percentage`
    /// of the total weight snapshotted at proposal creation.
    AbsolutePercentage { percentage: Decimal },
}

/// A threshold rule paired with the current total weight, as reported
/// by queries.
#[derive(Clone, Copy, Debug, PartialEq, Eq, Structural)]
pub enum ThresholdResponse {
    AbsoluteCount { weight: u64, total_weight: u64 },
    AbsolutePercentage { percentage: Decimal, total_weight: u64 },
}

/// The structural bounds a threshold rule keeps for its whole lifetime:
/// a count is at least one, and a percentage lies between one half and
/// one. The count may later exceed the current total weight when voters
/// leave; such a rule simply cannot be met any more.
pub open spec fn threshold_wf(t: Threshold) -> bool {
    match t {
        Threshold::AbsoluteCount { weight } => weight >= 1,
        Threshold::AbsolutePercentage { percentage } => 500_000_000_000_000_000
            <= percentage.atomics <= 1_000_000_000_000_000_000,
    }
}

/// Which error, if any, `validate` reports for `t` against `total_weight`.
pub open spec fn spec_validate(t: Threshold, total_weight: u64) -> Option<ContractError> {
    match t {
        Threshold::AbsoluteCount { weight } => if weight == 0 {
            Some(ContractError::ZeroWeight)
        } else if weight > total_weight {
            Some(ContractError::UnreachableWeight)
        } else {
            None
        },
        Threshold::AbsolutePercentage { percentage } => if percentage.atomics
            < 500_000_000_000_000_000 || percentage.atomics > 1_000_000_000_000_000_000 {
            Some(ContractError::InvalidThreshold)
        } else {
            None
        },
    }
}

impl Threshold {
    /// Checks that the rule can be met by a membership of `total_weight`:
    /// a count must be between one and the total weight, a percentage
    /// between fifty and one hundred percent.
    pub fn validate(&self, total_weight: u64) -> (r: Result<(), ContractError>)
        ensures
            match spec_validate(*self, total_weight) {
                Some(e) => r == Err::<(), ContractError>(e),
                None => r == Ok::<(), ContractError>(()),
            },
            r is Ok ==> threshold_wf(*self),
    {
        match self {
            Threshold::AbsoluteCount { weight } => {
                if *weight == 0 {
                    Err(ContractError::ZeroWeight)
                } else if *weight > total_weight {
                    Err(ContractError::UnreachableWeight)
                } else {
                    Ok(())
                }
            },
            Threshold::AbsolutePercentage { percentage } => {
                if percentage.atomics < 500_000_000_000_000_000 || percentage.atomics
                    > 1_000_000_000_000_000_000 {
                    Err(ContractError::InvalidThreshold)
                } else {
                    Ok(())
                }
            },
        }
    }

    /// The response shape of this rule for the given total weight.
    pub fn to_response(&self, total_weight: u64) -> (r: ThresholdResponse)
        ensures
            r == spec_to_response(*self, total_weight),
    {
        match self {
            Threshold::AbsoluteCount { weight } => ThresholdResponse::AbsoluteCount {
                weight: *weight,
                total_weight,
            },
            Threshold::AbsolutePercentage { percentage } => ThresholdResponse::AbsolutePercentage {
                percentage: *percentage,
                total_weight,
            },
        }
    }
}

/// The response shape of rule `t` for the given total weight.
pub open spec fn spec_to_response(t: Threshold, total_weight: u64) -> ThresholdResponse {
    match t {
        Threshold::AbsoluteCount { weight } => ThresholdResponse::AbsoluteCount {
            weight,
            total_weight,
        },
        Threshold::AbsolutePercentage { percentage } => ThresholdResponse::AbsolutePercentage {
            percentage,
            total_weight,
        },
    }
}

} // verus!
