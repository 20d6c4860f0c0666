//! A points/loyalty ledger with token-minting rights and a lightweight
//! governance vote tally.
//!
//! The verified core keeps user accounts (loyalty points, activity
//! timestamps, profile text), proposal vote tallies, and the policy that
//! converts points into mintable token amounts and decays points over time.
//! The fungible-token ledger and the event sink are external collaborators:
//! the core hands the caller a [`ledger::LedgerInstruction`] to carry out and
//! a domain event to deliver, and takes the collaborator's outcome back as a
//! plain value, so every state transition here is verified for every outcome
//! the collaborator may produce.
pub mod account;
pub mod errors;
pub mod events;
pub mod governance;
pub mod laws;
pub mod ledger;
pub mod program;
pub mod store;
