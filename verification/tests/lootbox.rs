use lootbox_program::eligibility::check_eligibility;
use lootbox_program::error::LootboxError;
use lootbox_program::open_lootbox::{OpenLootbox, StakingProgram, STAKING_PROGRAM_ID};
use lootbox_program::retrieve_item::RetrieveItem;
use lootbox_program::state::{LootboxPointer, UserStakeInfo, UserState};
use lootbox_program::AccountId;

fn acct(id: u64) -> AccountId {
    AccountId { id }
}

fn fresh_state() -> UserState {
    UserState {
        bump: 251,
        switchboard_state_bump: 252,
        vrf_permission_bump: 253,
        vrf: acct(40),
        mint: acct(50),
        result: 0,
        redeemable: false,
    }
}

fn open_accounts(total_earned: u64) -> OpenLootbox {
    OpenLootbox {
        user: acct(1),
        lootbox_pointer: LootboxPointer {
            is_initialized: false,
            claimed: false,
        },
        stake_mint: acct(2),
        stake_mint_ata: acct(3),
        stake_state: UserStakeInfo {
            user_pubkey: acct(1),
            total_earned,
        },
        state: fresh_state(),
        vrf: acct(40),
        oracle_queue: acct(60),
        queue_authority: acct(61),
        data_buffer: acct(62),
        permission: acct(63),
        escrow: acct(64),
        payer_wallet: acct(65),
    }
}

fn retrieve_accounts(state: UserState) -> RetrieveItem {
    RetrieveItem {
        user: acct(1),
        mint: state.mint,
        state,
        user_gear_ata: acct(70),
        mint_authority_bump: 254,
    }
}

#[test]
fn eligibility_accepts_each_tier_on_the_progression() {
    for tier in [10u64, 20, 40, 80, 160, 320, 640, 1280] {
        assert_eq!(check_eligibility(tier, tier), Ok(()));
    }
}

#[test]
fn eligibility_rejects_values_off_the_progression() {
    for bad in [0u64, 1, 5, 9, 11, 15, 30, 50, 100, 159, 161, u64::MAX] {
        assert_eq!(check_eligibility(bad, u64::MAX), Err(LootboxError::InvalidLootbox));
    }
}

#[test]
fn eligibility_requires_credit_to_reach_the_tier() {
    assert_eq!(check_eligibility(20, 19), Err(LootboxError::InvalidLootbox));
    assert_eq!(check_eligibility(20, 20), Ok(()));
    assert_eq!(check_eligibility(20, 21), Ok(()));
    assert_eq!(check_eligibility(10, 0), Err(LootboxError::InvalidLootbox));
}

#[test]
fn open_rejects_a_tier_off_the_progression_regardless_of_credit() {
    let mut accounts = open_accounts(u64::MAX);
    let before = accounts;
    let r = accounts.process_instruction(15);
    assert_eq!(r, Err(LootboxError::InvalidLootbox));
    assert_eq!(accounts, before);
}

#[test]
fn open_rejects_insufficient_credit() {
    let mut accounts = open_accounts(19);
    let r = accounts.process_instruction(20);
    assert_eq!(r, Err(LootboxError::InvalidLootbox));
    assert!(!accounts.state.redeemable);
    assert!(!accounts.lootbox_pointer.is_initialized);
}

#[test]
fn open_accepts_exactly_sufficient_credit() {
    let mut accounts = open_accounts(20);
    let r = accounts.process_instruction(20);
    assert!(r.is_ok());
    assert!(accounts.state.redeemable);
    assert_eq!(accounts.state.result, 0);
    assert!(accounts.lootbox_pointer.is_initialized);
    assert!(!accounts.lootbox_pointer.claimed);
}

#[test]
fn open_burns_one_hundred_units_per_tier_step() {
    let mut accounts = open_accounts(5000);
    let action = accounts.process_instruction(40).unwrap();
    assert_eq!(action.burn.amount, 4000);
    assert_eq!(action.burn.mint, acct(2));
    assert_eq!(action.burn.from, acct(3));
    assert_eq!(action.burn.authority, acct(1));
}

#[test]
fn open_signs_the_randomness_request_as_the_record_itself() {
    let mut accounts = open_accounts(5000);
    let action = accounts.process_instruction(80).unwrap();
    let request = action.request;
    assert_eq!(request.authority.seed, acct(1));
    assert_eq!(request.authority.bump, 251);
    assert_eq!(request.state_bump, 252);
    assert_eq!(request.permission_bump, 253);
    assert_eq!(request.vrf, acct(40));
    assert_eq!(request.oracle_queue, acct(60));
    assert_eq!(request.queue_authority, acct(61));
    assert_eq!(request.data_buffer, acct(62));
    assert_eq!(request.permission, acct(63));
    assert_eq!(request.escrow, acct(64));
    assert_eq!(request.payer_wallet, acct(65));
    assert_eq!(request.payer_authority, acct(1));
}

#[test]
fn open_rejects_a_randomness_account_not_bound_to_the_record() {
    let mut accounts = open_accounts(5000);
    accounts.vrf = acct(41);
    let before = accounts;
    let r = accounts.process_instruction(40);
    assert_eq!(r, Err(LootboxError::InvalidVrfAccount));
    assert_eq!(accounts, before);
}

#[test]
fn second_open_without_redeem_is_rejected() {
    let mut accounts = open_accounts(5000);
    assert!(accounts.process_instruction(10).is_ok());
    let r = accounts.process_instruction(10);
    assert_eq!(r, Err(LootboxError::InvalidLootbox));
    let r = accounts.process_instruction(20);
    assert_eq!(r, Err(LootboxError::InvalidLootbox));
}

#[test]
fn redeem_right_after_open_succeeds_without_fulfillment() {
    let mut accounts = open_accounts(5000);
    assert!(accounts.process_instruction(10).is_ok());
    assert_eq!(accounts.state.result, 0);
    let mut redeem = retrieve_accounts(accounts.state);
    let r = redeem.process_instruction();
    assert!(r.is_ok());
    assert!(!redeem.state.redeemable);
}

#[test]
fn second_redeem_is_rejected() {
    let mut accounts = open_accounts(5000);
    assert!(accounts.process_instruction(10).is_ok());
    let mut redeem = retrieve_accounts(accounts.state);
    assert!(redeem.process_instruction().is_ok());
    let r = redeem.process_instruction();
    assert_eq!(r, Err(LootboxError::MintNotReady));
    assert!(!redeem.state.redeemable);
}

#[test]
fn redeem_from_a_fresh_user_is_rejected() {
    let mut redeem = retrieve_accounts(fresh_state());
    let before = redeem;
    let r = redeem.process_instruction();
    assert_eq!(r, Err(LootboxError::MintNotReady));
    assert_eq!(redeem, before);
}

#[test]
fn fulfillment_writes_only_the_pending_result() {
    let mut state = fresh_state();
    state.redeemable = true;
    let before = state;
    state.fulfill(12345);
    assert_eq!(state.result, 12345);
    assert_eq!(
        state,
        UserState {
            result: 12345,
            ..before
        }
    );
}

#[test]
fn round_trip_open_fulfill_redeem() {
    let mut accounts = open_accounts(5000);
    let action = accounts.process_instruction(40).unwrap();
    assert_eq!(action.burn.amount, 4000);
    assert!(accounts.state.redeemable);

    // the oracle network writes the random value back in a later transaction
    accounts.state.fulfill(987654321);
    assert_eq!(accounts.state.result, 987654321);
    assert!(accounts.state.redeemable);

    let mut redeem = retrieve_accounts(accounts.state);
    let order = redeem.process_instruction().unwrap();
    assert_eq!(order.amount, 1);
    assert_eq!(order.mint, acct(50));
    assert_eq!(order.to, acct(70));
    assert_eq!(order.authority_bump, 254);

    assert!(!redeem.state.redeemable);
    assert_eq!(redeem.process_instruction(), Err(LootboxError::MintNotReady));

    // the ledger slot still shows the opened container: initialized, unclaimed
    assert!(accounts.lootbox_pointer.is_initialized);
    assert!(!accounts.lootbox_pointer.claimed);
}

#[test]
fn staking_program_has_the_configured_identity() {
    assert_eq!(StakingProgram::id(), AccountId { id: STAKING_PROGRAM_ID });
}
