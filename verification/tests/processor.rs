//! Tests of the instruction handlers and the router.

use predict_chat_program::addr::Address;
use predict_chat_program::error::{PredictChatError, ProgramError};
use predict_chat_program::instruction::PredictInstruction;
use predict_chat_program::processor::{
    process_initialize_room, process_instruction, process_settle_prediction,
    process_stake_and_commit,
};
use predict_chat_program::state::{AccountSlot, PredictionState, RoomState};

fn addr(b: u8) -> Address {
    Address::from_bytes(vec![b; 32]).unwrap()
}

fn program_id() -> Address {
    addr(0xf0)
}

fn room_state() -> RoomState {
    RoomState {
        authority: addr(1),
        oracle_feed: addr(2),
        staking_mint: addr(3),
        stake_vault: addr(4),
        bump: 1,
    }
}

/// A prediction slot, a matching room slot, and an oracle slot reporting the
/// given price.
fn settlement_slots(
    predicted_price: i64,
    expiry_slot: u64,
    oracle_price: i64,
) -> (AccountSlot, AccountSlot, AccountSlot) {
    let room_key = addr(0x10);
    let prediction = PredictionState {
        user: addr(5),
        room: room_key.clone(),
        predicted_price,
        expiry_slot,
        stake: 100,
        resolved: false,
        won: false,
    };
    let prediction_slot = AccountSlot {
        key: addr(0x11),
        owner: program_id(),
        data: prediction.encode(),
    };
    let room_slot = AccountSlot { key: room_key, owner: program_id(), data: room_state().encode() };
    let oracle_slot = AccountSlot {
        key: addr(0x12),
        owner: addr(0x13),
        data: oracle_price.to_le_bytes().to_vec(),
    };
    (prediction_slot, room_slot, oracle_slot)
}

fn custom(e: PredictChatError) -> ProgramError {
    ProgramError::Custom(e.code())
}

#[test]
fn settle_sets_won_flag() {
    let (mut prediction_slot, room_slot, oracle_slot) = settlement_slots(30_000, 0, 35_000);
    process_settle_prediction(&program_id(), &mut prediction_slot, &room_slot, &oracle_slot, 0)
        .unwrap();
    let resolved_prediction = PredictionState::decode(&prediction_slot.data).unwrap();
    assert!(resolved_prediction.resolved);
    assert!(resolved_prediction.won);
}

#[test]
fn settle_after_expiry_with_higher_price_wins() {
    let (mut prediction_slot, room_slot, oracle_slot) = settlement_slots(30_000, 100, 35_000);
    let r =
        process_settle_prediction(&program_id(), &mut prediction_slot, &room_slot, &oracle_slot, 150);
    assert_eq!(r, Ok(()));
    let p = PredictionState::decode(&prediction_slot.data).unwrap();
    assert!(p.resolved);
    assert!(p.won);
}

#[test]
fn settle_after_expiry_with_lower_price_loses() {
    let (mut prediction_slot, room_slot, oracle_slot) = settlement_slots(30_000, 100, 25_000);
    let r =
        process_settle_prediction(&program_id(), &mut prediction_slot, &room_slot, &oracle_slot, 150);
    assert_eq!(r, Ok(()));
    let p = PredictionState::decode(&prediction_slot.data).unwrap();
    assert!(p.resolved);
    assert!(!p.won);
}

#[test]
fn settle_tie_counts_as_win() {
    let (mut prediction_slot, room_slot, oracle_slot) = settlement_slots(30_000, 100, 30_000);
    let r =
        process_settle_prediction(&program_id(), &mut prediction_slot, &room_slot, &oracle_slot, 150);
    assert_eq!(r, Ok(()));
    let p = PredictionState::decode(&prediction_slot.data).unwrap();
    assert!(p.resolved);
    assert!(p.won);
}

#[test]
fn settle_just_below_target_loses() {
    let (mut prediction_slot, room_slot, oracle_slot) = settlement_slots(30_000, 100, 29_999);
    let r =
        process_settle_prediction(&program_id(), &mut prediction_slot, &room_slot, &oracle_slot, 150);
    assert_eq!(r, Ok(()));
    let p = PredictionState::decode(&prediction_slot.data).unwrap();
    assert!(p.resolved);
    assert!(!p.won);
}

#[test]
fn settle_before_expiry_fails_with_not_expired() {
    let (mut prediction_slot, room_slot, oracle_slot) = settlement_slots(30_000, 100, 35_000);
    let before = prediction_slot.data.clone();
    let r =
        process_settle_prediction(&program_id(), &mut prediction_slot, &room_slot, &oracle_slot, 50);
    assert_eq!(r, Err(custom(PredictChatError::NotExpired)));
    assert_eq!(prediction_slot.data, before);
    let p = PredictionState::decode(&prediction_slot.data).unwrap();
    assert!(!p.resolved);
}

#[test]
fn settle_twice_fails_with_already_settled() {
    let (mut prediction_slot, room_slot, oracle_slot) = settlement_slots(30_000, 100, 35_000);
    process_settle_prediction(&program_id(), &mut prediction_slot, &room_slot, &oracle_slot, 150)
        .unwrap();
    let after_first = prediction_slot.data.clone();
    let r =
        process_settle_prediction(&program_id(), &mut prediction_slot, &room_slot, &oracle_slot, 200);
    assert_eq!(r, Err(custom(PredictChatError::AlreadySettled)));
    assert_eq!(prediction_slot.data, after_first);
}

#[test]
fn settle_foreign_room_fails_with_invalid_room() {
    let (mut prediction_slot, mut room_slot, oracle_slot) = settlement_slots(30_000, 100, 35_000);
    room_slot.key = addr(0x99);
    let r =
        process_settle_prediction(&program_id(), &mut prediction_slot, &room_slot, &oracle_slot, 150);
    assert_eq!(r, Err(custom(PredictChatError::InvalidRoom)));
    let p = PredictionState::decode(&prediction_slot.data).unwrap();
    assert!(!p.resolved);
}

#[test]
fn settle_short_oracle_fails_with_oracle_data_too_small() {
    let (mut prediction_slot, room_slot, mut oracle_slot) = settlement_slots(30_000, 100, 35_000);
    oracle_slot.data = vec![0xff; 7];
    let r =
        process_settle_prediction(&program_id(), &mut prediction_slot, &room_slot, &oracle_slot, 150);
    assert_eq!(r, Err(custom(PredictChatError::OracleDataTooSmall)));
    let p = PredictionState::decode(&prediction_slot.data).unwrap();
    assert!(!p.resolved);
}

#[test]
fn settle_mis_owned_slot_fails_with_invalid_owner() {
    let (mut prediction_slot, mut room_slot, oracle_slot) = settlement_slots(30_000, 100, 35_000);
    room_slot.owner = addr(0x99);
    let r =
        process_settle_prediction(&program_id(), &mut prediction_slot, &room_slot, &oracle_slot, 150);
    assert_eq!(r, Err(custom(PredictChatError::InvalidOwner)));

    let (mut prediction_slot, room_slot, oracle_slot) = settlement_slots(30_000, 100, 35_000);
    prediction_slot.owner = addr(0x99);
    let r =
        process_settle_prediction(&program_id(), &mut prediction_slot, &room_slot, &oracle_slot, 150);
    assert_eq!(r, Err(custom(PredictChatError::InvalidOwner)));
}

#[test]
fn initialize_room_writes_room_state() {
    let mut room_slot = AccountSlot { key: addr(0x10), owner: program_id(), data: vec![] };
    let r = process_initialize_room(
        &program_id(),
        &mut room_slot,
        &addr(1),
        addr(2),
        addr(3),
        addr(4),
        9,
    );
    assert_eq!(r, Ok(()));
    let room = RoomState::decode(&room_slot.data).unwrap();
    assert_eq!(room.authority, addr(1));
    assert_eq!(room.oracle_feed, addr(2));
    assert_eq!(room.staking_mint, addr(3));
    assert_eq!(room.stake_vault, addr(4));
    assert_eq!(room.bump, 9);
}

#[test]
fn initialize_room_on_nonempty_slot_leaves_bytes_unchanged() {
    let existing = vec![0xab, 0xcd, 0xef];
    let mut room_slot =
        AccountSlot { key: addr(0x10), owner: program_id(), data: existing.clone() };
    let r = process_initialize_room(
        &program_id(),
        &mut room_slot,
        &addr(1),
        addr(2),
        addr(3),
        addr(4),
        9,
    );
    assert_eq!(r, Err(custom(PredictChatError::AlreadyInitialized)));
    assert_eq!(room_slot.data, existing);
}

#[test]
fn initialize_room_mis_owned_fails_with_invalid_owner() {
    let mut room_slot = AccountSlot { key: addr(0x10), owner: addr(0x99), data: vec![] };
    let r = process_initialize_room(
        &program_id(),
        &mut room_slot,
        &addr(1),
        addr(2),
        addr(3),
        addr(4),
        9,
    );
    assert_eq!(r, Err(custom(PredictChatError::InvalidOwner)));
    assert!(room_slot.data.is_empty());
}

#[test]
fn stake_and_commit_writes_unresolved_prediction() {
    let room_slot =
        AccountSlot { key: addr(0x10), owner: program_id(), data: room_state().encode() };
    let mut prediction_slot = AccountSlot { key: addr(0x11), owner: program_id(), data: vec![] };
    let r = process_stake_and_commit(
        &program_id(),
        &mut prediction_slot,
        &addr(5),
        &room_slot,
        -7,
        123,
        456,
    );
    assert_eq!(r, Ok(()));
    let p = PredictionState::decode(&prediction_slot.data).unwrap();
    assert_eq!(p.user, addr(5));
    assert_eq!(p.room, addr(0x10));
    assert_eq!(p.predicted_price, -7);
    assert_eq!(p.expiry_slot, 123);
    assert_eq!(p.stake, 456);
    assert!(!p.resolved);
    assert!(!p.won);
}

#[test]
fn stake_and_commit_rejects_nonempty_prediction_slot() {
    let room_slot =
        AccountSlot { key: addr(0x10), owner: program_id(), data: room_state().encode() };
    let mut prediction_slot =
        AccountSlot { key: addr(0x11), owner: program_id(), data: vec![1, 2, 3] };
    let r = process_stake_and_commit(
        &program_id(),
        &mut prediction_slot,
        &addr(5),
        &room_slot,
        1,
        2,
        3,
    );
    assert_eq!(r, Err(custom(PredictChatError::AlreadyInitialized)));
    assert_eq!(prediction_slot.data, vec![1, 2, 3]);
}

#[test]
fn stake_and_commit_rejects_malformed_room() {
    let room_slot = AccountSlot { key: addr(0x10), owner: program_id(), data: vec![0u8; 100] };
    let mut prediction_slot = AccountSlot { key: addr(0x11), owner: program_id(), data: vec![] };
    let r = process_stake_and_commit(
        &program_id(),
        &mut prediction_slot,
        &addr(5),
        &room_slot,
        1,
        2,
        3,
    );
    assert_eq!(r, Err(ProgramError::DecodeError));
    assert!(prediction_slot.data.is_empty());
}

#[test]
fn router_runs_a_whole_market_round() {
    let pid = program_id();

    // Initialize the room.
    let mut accounts = vec![
        AccountSlot { key: addr(0x10), owner: pid.clone(), data: vec![] },
        AccountSlot { key: addr(1), owner: addr(0x20), data: vec![] },
    ];
    let init = PredictInstruction::InitializeRoom {
        oracle_feed: addr(2),
        staking_mint: addr(3),
        stake_vault: addr(4),
        bump: 5,
    };
    assert_eq!(process_instruction(&pid, &mut accounts, 10, &init.encode()), Ok(()));
    let room_data = accounts[0].data.clone();
    assert!(RoomState::decode(&room_data).is_ok());

    // Commit a prediction against it.
    let mut accounts = vec![
        AccountSlot { key: addr(0x11), owner: pid.clone(), data: vec![] },
        AccountSlot { key: addr(5), owner: addr(0x20), data: vec![] },
        AccountSlot { key: addr(0x10), owner: pid.clone(), data: room_data.clone() },
    ];
    let commit = PredictInstruction::StakeAndCommit {
        predicted_price: 30_000,
        expiry_slot: 100,
        stake: 50,
    };
    assert_eq!(process_instruction(&pid, &mut accounts, 10, &commit.encode()), Ok(()));
    let prediction_data = accounts[0].data.clone();
    let p = PredictionState::decode(&prediction_data).unwrap();
    assert_eq!(p.room, addr(0x10));
    assert!(!p.resolved);

    // Settle it after expiry.
    let mut accounts = vec![
        AccountSlot { key: addr(0x11), owner: pid.clone(), data: prediction_data },
        AccountSlot { key: addr(0x10), owner: pid.clone(), data: room_data },
        AccountSlot { key: addr(0x12), owner: addr(0x21), data: 31_000i64.to_le_bytes().to_vec() },
    ];
    let settle = PredictInstruction::SettlePrediction {};
    assert_eq!(process_instruction(&pid, &mut accounts, 150, &settle.encode()), Ok(()));
    let settled = PredictionState::decode(&accounts[0].data).unwrap();
    assert!(settled.resolved);
    assert!(settled.won);
}

#[test]
fn router_rejects_malformed_instruction_bytes() {
    let pid = program_id();
    let mut accounts = vec![
        AccountSlot { key: addr(0x10), owner: pid.clone(), data: vec![] },
        AccountSlot { key: addr(1), owner: addr(0x20), data: vec![] },
    ];
    assert_eq!(
        process_instruction(&pid, &mut accounts, 0, &[9u8]),
        Err(ProgramError::InvalidInstructionData)
    );
    assert!(accounts[0].data.is_empty());
}

#[test]
fn router_rejects_missing_accounts() {
    let pid = program_id();
    let settle = PredictInstruction::SettlePrediction {};
    let mut accounts = vec![
        AccountSlot { key: addr(0x11), owner: pid.clone(), data: vec![] },
        AccountSlot { key: addr(0x10), owner: pid.clone(), data: vec![] },
    ];
    assert_eq!(
        process_instruction(&pid, &mut accounts, 0, &settle.encode()),
        Err(ProgramError::NotEnoughAccountKeys)
    );

    let init = PredictInstruction::InitializeRoom {
        oracle_feed: addr(2),
        staking_mint: addr(3),
        stake_vault: addr(4),
        bump: 5,
    };
    let mut one_account = vec![AccountSlot { key: addr(0x10), owner: pid.clone(), data: vec![] }];
    assert_eq!(
        process_instruction(&pid, &mut one_account, 0, &init.encode()),
        Err(ProgramError::NotEnoughAccountKeys)
    );
}

#[test]
fn error_codes_are_stable() {
    assert_eq!(PredictChatError::InvalidOwner.code(), 0);
    assert_eq!(PredictChatError::AlreadyInitialized.code(), 1);
    assert_eq!(PredictChatError::AlreadySettled.code(), 2);
    assert_eq!(PredictChatError::NotExpired.code(), 3);
    assert_eq!(PredictChatError::InvalidRoom.code(), 4);
    assert_eq!(PredictChatError::OracleDataTooSmall.code(), 5);
}
