//! The error taxonomy of the loyalty program.
//!
//! Every operation returns its error to the immediate caller; nothing is
//! retried internally. A failure of the external token ledger is carried
//! through unchanged in the [`LoyaltyProgramError::Ledger`] variant.
use vstd::prelude::*;

verus! {

/// A failure reported by the external token ledger when asked to carry out
/// a mint or burn instruction.
#[derive(Clone, Copy, Debug, PartialEq, Eq, Structural)]
pub enum LedgerError {
    /// The source account holds fewer tokens than the burn asked for.
    InsufficientBalance,
    /// The ledger refused the instruction for any other reason; the core
    /// treats the cause as opaque.
    Rejected,
}

/// An error returned by an operation of the loyalty program.
#[derive(Clone, Copy, Debug, PartialEq, Eq, Structural)]
pub enum LoyaltyProgramError {
    /// A debit asked for more loyalty points than the account holds.
    InsufficientFunds,
    /// Reserved: authorization is checked by the host environment before the
    /// core logic runs, so no operation currently returns this.
    Unauthorized,
    /// An account or the mint was asked to be created a second time.
    AccountAlreadyInitialized,
    /// An operation named an account or a mint that does not exist yet.
    AccountNotInitialized,
    /// An unsigned credit would have wrapped around its 64-bit bound.
    Overflow,
    /// A supplied timestamp lies before the account's last recorded
    /// activity, although the clock is assumed non-decreasing.
    ClockSkew,
    /// Profile or proposal text exceeds its bounded length.
    FieldTooLong,
    /// The external token ledger failed; its error is carried unchanged.
    Ledger(LedgerError),
}

/// Maps a failure of the external token ledger into the program's own error
/// taxonomy; the ledger's error is preserved, not rewritten.
pub fn ledger_failure(e: LedgerError) -> (r: LoyaltyProgramError)
    ensures
        r == LoyaltyProgramError::Ledger(e),
{
    LoyaltyProgramError::Ledger(e)
}

} // verus!
