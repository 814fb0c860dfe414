//! Expirations and voting-period durations.
//!
//! An expiration is an absolute point: a block height, a block time in
//! nanoseconds, or never. Whether it has been reached is a pure function
//! of the ambient block information supplied by the caller's execution
//! context; nothing here is a timer.

use vstd::prelude::*;

verus! {

/// The ambient block information of a call: the current height and the
/// current time in nanoseconds.
#[derive(Clone, Copy, Debug, PartialEq, Eq, Structural)]
pub struct BlockInfo {
    pub height: u64,
    pub time: u64,
}

/// An absolute point at which a proposal's voting period ends.
#[derive(Clone, Copy, Debug, PartialEq, Eq, Structural)]
pub enum Expiration {
    /// Expired once `block.height` reaches the height.
    AtHeight(u64),
    /// Expired once `block.time` reaches the time (in nanoseconds).
    AtTime(u64),
    /// Never expires.
    Never,
}

/// A voting-period length, counted in blocks or in seconds.
#[derive(Clone, Copy, Debug, PartialEq, Eq, Structural)]
pub enum Duration {
    Height(u64),
    /// Time in seconds.
    Time(u64),
}

/// How two expirations compare: incomparable when one is height-based
/// and the other time-based; `Never` sits above everything.
#[derive(Clone, Copy, Debug, PartialEq, Eq, Structural)]
pub enum ExpirationCmp {
    Less,
    Equal,
    Greater,
    Incomparable,
}

/// Whether expiration `e` has been reached at block `b`.
pub open spec fn spec_is_expired(e: Expiration, b: BlockInfo) -> bool {
    match e {
        Expiration::AtHeight(height) => b.height >= height,
        Expiration::AtTime(time) => b.time >= time,
        Expiration::Never => false,
    }
}

/// How `a` compares with `b`: heights compare with heights, times with
/// times, `Never` is greater than everything but equal to itself, and a
/// height never compares with a time.
pub open spec fn spec_cmp_expiration(a: Expiration, b: Expiration) -> ExpirationCmp {
    match (a, b) {
        (Expiration::AtHeight(h1), Expiration::AtHeight(h2)) => if h1 < h2 {
            ExpirationCmp::Less
        } else if h1 == h2 {
            ExpirationCmp::Equal
        } else {
            ExpirationCmp::Greater
        },
        (Expiration::AtTime(t1), Expiration::AtTime(t2)) => if t1 < t2 {
            ExpirationCmp::Less
        } else if t1 == t2 {
            ExpirationCmp::Equal
        } else {
            ExpirationCmp::Greater
        },
        (Expiration::Never, Expiration::Never) => ExpirationCmp::Equal,
        (Expiration::Never, _) => ExpirationCmp::Greater,
        (_, Expiration::Never) => ExpirationCmp::Less,
        _ => ExpirationCmp::Incomparable,
    }
}

impl Expiration {
    /// Whether this expiration has been reached at block `b`.
    pub fn is_expired(&self, b: &BlockInfo) -> (r: bool)
        ensures
            r == spec_is_expired(*self, *b),
    {
        match self {
            Expiration::AtHeight(height) => b.height >= *height,
            Expiration::AtTime(time) => b.time >= *time,
            Expiration::Never => false,
        }
    }

    /// Compares this expiration with another.
    pub fn cmp_with(&self, other: &Expiration) -> (r: ExpirationCmp)
        ensures
            r == spec_cmp_expiration(*self, *other),
    {
        match (self, other) {
            (Expiration::AtHeight(h1), Expiration::AtHeight(h2)) => {
                if h1 < h2 {
                    ExpirationCmp::Less
                } else if h1 == h2 {
                    ExpirationCmp::Equal
                } else {
                    ExpirationCmp::Greater
                }
            },
            (Expiration::AtTime(t1), Expiration::AtTime(t2)) => {
                if t1 < t2 {
                    ExpirationCmp::Less
                } else if t1 == t2 {
                    ExpirationCmp::Equal
                } else {
                    ExpirationCmp::Greater
                }
            },
            (Expiration::Never, Expiration::Never) => ExpirationCmp::Equal,
            (Expiration::Never, _) => ExpirationCmp::Greater,
            (_, Expiration::Never) => ExpirationCmp::Less,
            _ => ExpirationCmp::Incomparable,
        }
    }
}

/// The expiration that duration `d` reaches when started at block `b`,
/// or `None` when the sum leaves the machine range.
pub open spec fn spec_after(d: Duration, b: BlockInfo) -> Option<Expiration> {
    match d {
        Duration::Height(h) => if b.height + h <= u64::MAX {
            Some(Expiration::AtHeight((b.height + h) as u64))
        } else {
            None
        },
        Duration::Time(t) => if t * 1_000_000_000 + b.time <= u64::MAX {
            Some(Expiration::AtTime((b.time + t * 1_000_000_000) as u64))
        } else {
            None
        },
    }
}

impl Duration {
    /// The expiration reached by this duration starting at block `b`;
    /// `None` when it would lie beyond the machine range.
    pub fn after(&self, b: &BlockInfo) -> (r: Option<Expiration>)
        ensures
            r == spec_after(*self, *b),
    {
        match self {
            Duration::Height(h) => match b.height.checked_add(*h) {
                Some(height) => Some(Expiration::AtHeight(height)),
                None => None,
            },
            Duration::Time(t) => match t.checked_mul(1_000_000_000) {
                Some(nanos) => match b.time.checked_add(nanos) {
                    Some(time) => Some(Expiration::AtTime(time)),
                    None => None,
                },
                None => None,
            },
        }
    }
}

} // verus!
