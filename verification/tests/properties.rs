//! Concrete checks of the library's stated properties: accrual, redemption
//! and its rollback, decay, time-based rewards, vote tallies, and the error
//! taxonomy.
use early_adopter_airdrop::errors::ledger_failure;
use early_adopter_airdrop::errors::LedgerError;
use early_adopter_airdrop::errors::LoyaltyProgramError;
use early_adopter_airdrop::ledger::LedgerInstruction;
use early_adopter_airdrop::program::LoyaltyProgram;

const DAY: i64 = 86_400;
const WEEK: i64 = 604_800;

#[test]
fn track_on_fresh_account_yields_exactly_the_points() {
    for points in [0u64, 1, 50, 123_456_789, u64::MAX] {
        let mut program = LoyaltyProgram::new();
        program.initialize_user(1, 500).unwrap();
        program.track_loyalty(1, points, 777).unwrap();
        let account = program.get_account(1).unwrap();
        assert_eq!(account.loyalty_points, points);
        assert_eq!(account.last_activity, 777);
    }
}

#[test]
fn redeem_full_balance_empties_account_and_mints_hundredfold() {
    let mut program = LoyaltyProgram::new();
    program.initialize(6).unwrap();
    program.initialize_user(1, 500).unwrap();
    program.track_loyalty(1, 7, 500).unwrap();
    let pending = program.redeem_loyalty(1, 7, 600).unwrap();
    assert_eq!(pending.mint_amount, 700);
    assert_eq!(pending.points, 7);
    assert_eq!(
        pending.instruction(),
        LedgerInstruction::MintTo { to: 1, amount: 700 }
    );
    let event = pending.event();
    assert_eq!(event.user, 1);
    assert_eq!(event.points, 7);
    let account = program.get_account(1).unwrap();
    assert_eq!(account.loyalty_points, 0);
    assert_eq!(account.last_activity, 600);
}

#[test]
fn redeem_more_than_held_fails_and_changes_nothing() {
    let mut program = LoyaltyProgram::new();
    program.initialize(6).unwrap();
    program.initialize_user(1, 500).unwrap();
    program.track_loyalty(1, 7, 500).unwrap();
    assert_eq!(
        program.redeem_loyalty(1, 8, 600),
        Err(LoyaltyProgramError::InsufficientFunds)
    );
    let account = program.get_account(1).unwrap();
    assert_eq!(account.loyalty_points, 7);
    assert_eq!(account.last_activity, 500);
}

#[test]
fn redeem_rolled_back_after_ledger_refusal_restores_account() {
    let mut program = LoyaltyProgram::new();
    program.initialize(6).unwrap();
    program.initialize_user(1, 500).unwrap();
    program.track_loyalty(1, 50, 500).unwrap();
    let pending = program.redeem_loyalty(1, 50, 900).unwrap();
    // The external ledger refuses the mint; the debit is rolled back.
    let refusal: Result<(), LedgerError> = Err(LedgerError::Rejected);
    assert!(refusal.is_err());
    program.redeem_cancel(pending).unwrap();
    let account = program.get_account(1).unwrap();
    assert_eq!(account.loyalty_points, 50);
    assert_eq!(account.last_activity, 500);
}

#[test]
fn penalty_under_one_week_changes_nothing() {
    let mut program = LoyaltyProgram::new();
    program.initialize_user(1, 1_000).unwrap();
    program.track_loyalty(1, 50, 1_000).unwrap();
    program.apply_inactivity_penalty(1, 1_000 + WEEK - 1).unwrap();
    let account = program.get_account(1).unwrap();
    assert_eq!(account.loyalty_points, 50);
    assert_eq!(account.last_activity, 1_000 + WEEK - 1);
}

#[test]
fn penalty_after_two_weeks_subtracts_twenty() {
    let mut program = LoyaltyProgram::new();
    program.initialize_user(1, 1_000).unwrap();
    program.track_loyalty(1, 50, 1_000).unwrap();
    program.apply_inactivity_penalty(1, 1_000 + 2 * WEEK).unwrap();
    let account = program.get_account(1).unwrap();
    assert_eq!(account.loyalty_points, 30);
}

#[test]
fn penalty_saturates_at_zero() {
    let mut program = LoyaltyProgram::new();
    program.initialize_user(1, 1_000).unwrap();
    program.track_loyalty(1, 5, 1_000).unwrap();
    program.apply_inactivity_penalty(1, 1_000 + 2 * WEEK).unwrap();
    let account = program.get_account(1).unwrap();
    assert_eq!(account.loyalty_points, 0);
}

#[test]
fn three_days_held_earn_three_points_and_repeat_earns_none() {
    let mut program = LoyaltyProgram::new();
    program.initialize_user(1, 1_000).unwrap();
    let event = program.time_based_rewards(1, 1_000 + 3 * DAY).unwrap();
    assert_eq!(event.points, 3);
    let account = program.get_account(1).unwrap();
    assert_eq!(account.loyalty_points, 3);
    // No time has passed since: the second call adds nothing.
    let event = program.time_based_rewards(1, 1_000 + 3 * DAY).unwrap();
    assert_eq!(event.points, 0);
    let account = program.get_account(1).unwrap();
    assert_eq!(account.loyalty_points, 3);
}

#[test]
fn two_votes_tally_ten_for_and_five_against() {
    let mut program = LoyaltyProgram::new();
    program.create_proposal(9, "expand the rewards".to_string()).unwrap();
    program.initialize_user(1, 100).unwrap();
    program.initialize_user(2, 100).unwrap();
    program.record_token_balance(1, 10).unwrap();
    program.record_token_balance(2, 5).unwrap();
    let event = program.vote(9, 1, true).unwrap();
    assert!(event.in_favor);
    assert_eq!(event.proposal, 9);
    let event = program.vote(9, 2, false).unwrap();
    assert!(!event.in_favor);
    let proposal = program.get_proposal(9).unwrap();
    assert_eq!(proposal.votes_for, 10);
    assert_eq!(proposal.votes_against, 5);
}

#[test]
fn burn_beyond_balance_propagates_ledger_error_and_touches_no_store() {
    let mut program = LoyaltyProgram::new();
    program.initialize(6).unwrap();
    program.initialize_user(1, 100).unwrap();
    program.track_loyalty(1, 40, 100).unwrap();
    program.create_proposal(9, "a proposal".to_string()).unwrap();
    // The external ledger holds 100 tokens for the user and is asked to
    // burn 200: it refuses with its insufficient-balance error.
    let token_balance: u64 = 100;
    let instruction = program.burn_tokens(1, 200).unwrap();
    let outcome: Result<(), LedgerError> = match instruction {
        LedgerInstruction::Burn { amount, .. } if amount > token_balance => {
            Err(LedgerError::InsufficientBalance)
        }
        _ => Ok(()),
    };
    let result = outcome.map_err(ledger_failure);
    assert_eq!(
        result,
        Err(LoyaltyProgramError::Ledger(LedgerError::InsufficientBalance))
    );
    // Neither the account store nor the proposal store was touched.
    let account = program.get_account(1).unwrap();
    assert_eq!(account.loyalty_points, 40);
    assert_eq!(account.last_activity, 100);
    let proposal = program.get_proposal(9).unwrap();
    assert_eq!(proposal.votes_for, 0);
    assert_eq!(proposal.votes_against, 0);
    assert_eq!(proposal.description, "a proposal");
}

#[test]
fn referral_credits_the_fixed_bonus() {
    let mut program = LoyaltyProgram::new();
    program.initialize_user(1, 100).unwrap();
    let event = program.refer_user(1, 2).unwrap();
    assert_eq!(event.referrer, 1);
    assert_eq!(event.referred, 2);
    let account = program.get_account(1).unwrap();
    assert_eq!(account.loyalty_points, 100);
    assert_eq!(account.last_activity, 100);
}

#[test]
fn overflowing_credits_are_refused() {
    let mut program = LoyaltyProgram::new();
    program.initialize_user(1, 100).unwrap();
    program.track_loyalty(1, u64::MAX, 100).unwrap();
    assert_eq!(
        program.track_loyalty(1, 1, 200),
        Err(LoyaltyProgramError::Overflow)
    );
    assert_eq!(
        program.refer_user(1, 2),
        Err(LoyaltyProgramError::Overflow)
    );
    let account = program.get_account(1).unwrap();
    assert_eq!(account.loyalty_points, u64::MAX);
    assert_eq!(account.last_activity, 100);
}

#[test]
fn redeem_refuses_a_mint_amount_that_would_wrap() {
    let mut program = LoyaltyProgram::new();
    program.initialize(6).unwrap();
    program.initialize_user(1, 100).unwrap();
    program.track_loyalty(1, u64::MAX, 100).unwrap();
    assert_eq!(
        program.redeem_loyalty(1, u64::MAX / 100 + 1, 200),
        Err(LoyaltyProgramError::Overflow)
    );
    let account = program.get_account(1).unwrap();
    assert_eq!(account.loyalty_points, u64::MAX);
}

#[test]
fn a_clock_running_backwards_is_refused() {
    let mut program = LoyaltyProgram::new();
    program.initialize_user(1, 1_000).unwrap();
    assert_eq!(
        program.time_based_rewards(1, 999),
        Err(LoyaltyProgramError::ClockSkew)
    );
    assert_eq!(
        program.apply_inactivity_penalty(1, 999),
        Err(LoyaltyProgramError::ClockSkew)
    );
    let account = program.get_account(1).unwrap();
    assert_eq!(account.loyalty_points, 0);
    assert_eq!(account.last_activity, 1_000);
}

#[test]
fn profile_text_beyond_its_bound_is_refused() {
    let mut program = LoyaltyProgram::new();
    program.initialize_user(1, 100).unwrap();
    let long_name = "x".repeat(101);
    assert_eq!(
        program.update_profile(1, long_name, "ok".to_string()),
        Err(LoyaltyProgramError::FieldTooLong)
    );
    let long_bio = "x".repeat(201);
    assert_eq!(
        program.update_profile(1, "ok".to_string(), long_bio),
        Err(LoyaltyProgramError::FieldTooLong)
    );
    let account = program.get_account(1).unwrap();
    assert_eq!(account.name, "");
    assert_eq!(account.bio, "");
    let boundary_name = "x".repeat(100);
    let boundary_bio = "y".repeat(200);
    program
        .update_profile(1, boundary_name.clone(), boundary_bio.clone())
        .unwrap();
    let account = program.get_account(1).unwrap();
    assert_eq!(account.name, boundary_name);
    assert_eq!(account.bio, boundary_bio);
}

#[test]
fn proposal_description_beyond_its_bound_is_refused() {
    let mut program = LoyaltyProgram::new();
    let long_description = "d".repeat(257);
    assert_eq!(
        program.create_proposal(9, long_description),
        Err(LoyaltyProgramError::FieldTooLong)
    );
    assert!(program.get_proposal(9).is_none());
    program.create_proposal(9, "d".repeat(256)).unwrap();
    assert_eq!(
        program.create_proposal(9, "again".to_string()),
        Err(LoyaltyProgramError::AccountAlreadyInitialized)
    );
}

#[test]
fn operations_on_missing_records_are_refused() {
    let mut program = LoyaltyProgram::new();
    assert_eq!(
        program.track_loyalty(5, 10, 100),
        Err(LoyaltyProgramError::AccountNotInitialized)
    );
    assert_eq!(
        program.vote(9, 5, true),
        Err(LoyaltyProgramError::AccountNotInitialized)
    );
    assert_eq!(
        program.reward_early_adopter(5, 10),
        Err(LoyaltyProgramError::AccountNotInitialized)
    );
    assert_eq!(
        program.burn_tokens(5, 10),
        Err(LoyaltyProgramError::AccountNotInitialized)
    );
    assert_eq!(
        program.redeem_loyalty(5, 10, 100),
        Err(LoyaltyProgramError::AccountNotInitialized)
    );
    program.create_proposal(9, "quorum".to_string()).unwrap();
    // The proposal exists, the voter does not.
    assert_eq!(
        program.vote(9, 5, true),
        Err(LoyaltyProgramError::AccountNotInitialized)
    );
}

#[test]
fn vote_tally_overflow_is_refused() {
    let mut program = LoyaltyProgram::new();
    program.create_proposal(9, "cap".to_string()).unwrap();
    program.initialize_user(1, 100).unwrap();
    program.record_token_balance(1, u64::MAX).unwrap();
    program.vote(9, 1, true).unwrap();
    assert_eq!(
        program.vote(9, 1, true),
        Err(LoyaltyProgramError::Overflow)
    );
    let proposal = program.get_proposal(9).unwrap();
    assert_eq!(proposal.votes_for, u64::MAX);
    assert_eq!(proposal.votes_against, 0);
}
