//! The interface to the external fungible-token ledger.
//!
//! The ledger itself (mint, burn, balances, authority checks) lives outside
//! the core. The core only decides which instruction the ledger should carry
//! out, hands it to the caller as a plain value, and — for a redemption —
//! keeps what it needs to roll its own debit back if the ledger refuses.
use vstd::prelude::*;

verus! {

/// One instruction for the external token ledger, produced by a validated
/// core operation and carried out by the caller.
#[derive(Clone, Copy, Debug, PartialEq, Eq, Structural)]
pub enum LedgerInstruction {
    /// Create the token mint with the given number of decimals.
    InitializeMint { decimals: u8 },
    /// Mint `amount` tokens to the account of user `to`.
    MintTo { to: u64, amount: u64 },
    /// Burn `amount` tokens from the account of user `from`.
    Burn { from: u64, amount: u64 },
}

/// A redemption whose point debit is committed but whose mint instruction is
/// still with the external ledger.
///
/// The debit and the mint are one atomic unit: if the ledger refuses the
/// mint, the caller hands this value to the rollback operation, which
/// restores the account exactly.
#[derive(Clone, Copy, Debug, PartialEq, Eq, Structural)]
pub struct PendingRedemption {
    /// The redeeming user.
    pub user: u64,
    /// The loyalty points already debited.
    pub points: u64,
    /// The token amount the ledger was asked to mint.
    pub mint_amount: u64,
    /// The account's activity timestamp from before the debit.
    pub prior_last_activity: i64,
}

impl PendingRedemption {
    /// The mint instruction belonging to this redemption.
    pub fn instruction(&self) -> (i: LedgerInstruction)
        ensures
            i == (LedgerInstruction::MintTo { to: self.user, amount: self.mint_amount }),
    {
        LedgerInstruction::MintTo { to: self.user, amount: self.mint_amount }
    }

    /// The event to deliver once the ledger has carried the mint out.
    pub fn event(&self) -> (e: crate::events::LoyaltyPointsRedeemed)
        ensures
            e == (crate::events::LoyaltyPointsRedeemed { user: self.user, points: self.points }),
    {
        crate::events::LoyaltyPointsRedeemed { user: self.user, points: self.points }
    }
}

/// The configuration of the token mint, recorded when the mint is created.
#[derive(Clone, Copy, Debug, PartialEq, Eq, Structural)]
pub struct MintConfig {
    /// The number of decimals the mint was created with.
    pub decimals: u8,
}

} // verus!
