//! The program's entry points, driven as the host would drive them: the
//! test plays the external token ledger, carrying out the instructions the
//! core hands back and keeping a plain balance.
use early_adopter_airdrop::errors::LoyaltyProgramError;
use early_adopter_airdrop::ledger::LedgerInstruction;
use early_adopter_airdrop::ledger::MintConfig;
use early_adopter_airdrop::program::LoyaltyProgram;

#[test]
fn test_initialize_mint() {
    let mut program = LoyaltyProgram::new();
    let instruction = program.initialize(9).expect("account not found");
    assert_eq!(instruction, LedgerInstruction::InitializeMint { decimals: 9 });
    assert_eq!(program.mint_config(), Some(MintConfig { decimals: 9 }));
    assert_eq!(
        program.initialize(9),
        Err(LoyaltyProgramError::AccountAlreadyInitialized)
    );
}

#[test]
fn test_initialize_user() {
    let mut program = LoyaltyProgram::new();
    let user: u64 = 32;
    program.initialize_user(user, 1_000_000).expect("account not found");
    let account = program.get_account(user).expect("account empty");
    assert_eq!(account.user, user);
    assert_eq!(account.loyalty_points, 0);
    assert_eq!(account.last_activity, 1_000_000);
    assert_eq!(account.loyalty_tier, 1);
    assert_eq!(
        program.initialize_user(user, 1_000_001),
        Err(LoyaltyProgramError::AccountAlreadyInitialized)
    );
}

#[test]
fn test_reward_early_adopter() {
    let mut program = LoyaltyProgram::new();
    program.initialize(9).expect("account not found");
    let user: u64 = 32;
    let amount: u64 = 1000;
    let (instruction, event) = program
        .reward_early_adopter(user, amount)
        .expect("account empty");
    assert_eq!(instruction, LedgerInstruction::MintTo { to: user, amount });
    assert_eq!(event.user, user);
    assert_eq!(event.amount, amount);
    // The external ledger carries the instruction out.
    let mut token_balance: u64 = 0;
    if let LedgerInstruction::MintTo { amount, .. } = instruction {
        token_balance += amount;
    }
    assert_eq!(token_balance, 1000);
}

#[test]
fn test_track_loyalty() {
    let mut program = LoyaltyProgram::new();
    let user: u64 = 32;
    program.initialize_user(user, 1_000_000).expect("account not found");
    let points: u64 = 50;
    let event = program
        .track_loyalty(user, points, 1_000_100)
        .expect("account empty");
    assert_eq!(event.user, user);
    assert_eq!(event.points, points);
    let account = program.get_account(user).expect("account empty");
    assert_eq!(account.loyalty_points, points);
    assert_eq!(account.last_activity, 1_000_100);
}

#[test]
fn test_burn_tokens() {
    let mut program = LoyaltyProgram::new();
    program.initialize(9).expect("account not found");
    let user: u64 = 32;
    program.initialize_user(user, 1_000_000).expect("account not found");
    // The external ledger first mints 1000 tokens to the user.
    let mut token_balance: u64 = 0;
    let (mint_instruction, _) = program.reward_early_adopter(user, 1000).expect("account empty");
    if let LedgerInstruction::MintTo { amount, .. } = mint_instruction {
        token_balance += amount;
    }
    // Then the program asks it to burn 500 of them.
    let burn_instruction = program.burn_tokens(user, 500).expect("account empty");
    assert_eq!(
        burn_instruction,
        LedgerInstruction::Burn { from: user, amount: 500 }
    );
    if let LedgerInstruction::Burn { amount, .. } = burn_instruction {
        token_balance -= amount;
    }
    assert_eq!(token_balance, 1000 - 500);
}

#[test]
fn test_apply_inactivity_penalty() {
    let mut program = LoyaltyProgram::new();
    let user: u64 = 32;
    program.initialize_user(user, 1_000_000).expect("account not found");
    let points: u64 = 50;
    program.track_loyalty(user, points, 1_000_000).expect("account empty");
    // One full week of inactivity costs ten points.
    program
        .apply_inactivity_penalty(user, 1_000_000 + 604_800)
        .expect("account empty");
    let account = program.get_account(user).expect("account empty");
    assert_eq!(account.loyalty_points, points - 10);
}

#[test]
fn test_update_profile() {
    let mut program = LoyaltyProgram::new();
    let user: u64 = 32;
    program.initialize_user(user, 1_000_000).expect("account not found");
    let name = "Users Name".to_string();
    let bio = "Users Bio.".to_string();
    program
        .update_profile(user, name.clone(), bio.clone())
        .expect("account empty");
    let account = program.get_account(user).expect("account empty");
    assert_eq!(account.name, name);
    assert_eq!(account.bio, bio);
}
