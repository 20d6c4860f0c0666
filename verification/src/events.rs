//! Domain events handed to the external event sink.
//!
//! The core returns the event for a successful operation to its caller, who
//! delivers it fire-and-forget: a delivery failure cannot roll back a state
//! change, because the change is already committed when the event exists.
use vstd::prelude::*;

verus! {

/// An early adopter was rewarded with freshly minted tokens.
#[derive(Clone, Copy, Debug, PartialEq, Eq, Structural)]
pub struct EarlyAdopterRewarded {
    pub user: u64,
    pub amount: u64,
}

/// Loyalty points were credited to a user.
#[derive(Clone, Copy, Debug, PartialEq, Eq, Structural)]
pub struct LoyaltyPointsTracked {
    pub user: u64,
    pub points: u64,
}

/// A vote was cast on a proposal.
#[derive(Clone, Copy, Debug, PartialEq, Eq, Structural)]
pub struct GovernanceVoted {
    pub proposal: u64,
    pub user: u64,
    pub in_favor: bool,
}

/// Loyalty points were redeemed for minted tokens.
#[derive(Clone, Copy, Debug, PartialEq, Eq, Structural)]
pub struct LoyaltyPointsRedeemed {
    pub user: u64,
    pub points: u64,
}

/// A user was referred and the referrer was credited the bonus.
#[derive(Clone, Copy, Debug, PartialEq, Eq, Structural)]
pub struct UserReferred {
    pub referrer: u64,
    pub referred: u64,
}

/// One domain event, as the external event sink receives it.
#[derive(Clone, Copy, Debug, PartialEq, Eq, Structural)]
pub enum DomainEvent {
    Rewarded(EarlyAdopterRewarded),
    PointsTracked(LoyaltyPointsTracked),
    Voted(GovernanceVoted),
    Redeemed(LoyaltyPointsRedeemed),
    Referred(UserReferred),
}

} // verus!
