//! Instruction handlers and the router.
//!
//! Each handler validates in a strict order — every check before any write —
//! and either replaces the target slot's data with a freshly encoded entity
//! or fails with no change at all.  The `spec_*` functions state each
//! handler's whole behaviour as one transition from the input slots to either
//! the target slot's new data or the exact error.

use vstd::prelude::*;
use crate::addr::Address;
use crate::codec::{
    prediction_bytes_valid, room_bytes_valid, spec_i64_from_le_bytes, spec_prediction_bytes,
    spec_prediction_of_bytes, spec_room_bytes, i64_from_le_bytes,
};
use crate::error::{spec_error_code, PredictChatError, ProgramError};
use crate::instruction::{
    instruction_bytes_valid, spec_instruction_of_bytes, InstructionView, PredictInstruction,
};
use crate::state::{AccountSlot, PredictionState, PredictionView, RoomState, RoomView, SlotView};
use vstd::slice::slice_subrange;

verus! {

/// Number of leading oracle bytes interpreted as the little-endian price.
pub const ORACLE_PRICE_LEN: usize = 8;

/// The views of a sequence of account slots.
pub open spec fn slots_view(s: Seq<AccountSlot>) -> Seq<SlotView> {
    s.map_values(|a: AccountSlot| a@)
}

// ---------------------------------------------------------------------------
// Room initialization.
// ---------------------------------------------------------------------------

/// What `InitializeRoom` does: the room slot's new data, or the exact error.
///
/// The room slot must be program-owned and empty; the new room records the
/// supplied authority and the instruction's three addresses and bump.
pub open spec fn spec_initialize_room(
    program_id: Seq<u8>,
    room_slot: SlotView,
    authority: Seq<u8>,
    oracle_feed: Seq<u8>,
    staking_mint: Seq<u8>,
    stake_vault: Seq<u8>,
    bump: u8,
) -> Result<Seq<u8>, ProgramError> {
    if room_slot.owner != program_id {
        Err(ProgramError::Custom(spec_error_code(PredictChatError::InvalidOwner)))
    } else if room_slot.data.len() != 0 {
        Err(ProgramError::Custom(spec_error_code(PredictChatError::AlreadyInitialized)))
    } else {
        Ok(spec_room_bytes(
            RoomView { authority, oracle_feed, staking_mint, stake_vault, bump },
        ))
    }
}

/// Creates a room in an empty, program-owned slot.
///
/// No authorization is demanded of `authority`: the protocol records any
/// caller-supplied identity as the room's authority.
pub fn process_initialize_room(
    program_id: &Address,
    room_account: &mut AccountSlot,
    authority: &Address,
    oracle_feed: Address,
    staking_mint: Address,
    stake_vault: Address,
    bump: u8,
) -> (r: Result<(), ProgramError>)
    ensures
        final(room_account)@.key == old(room_account)@.key,
        final(room_account)@.owner == old(room_account)@.owner,
        match spec_initialize_room(
            program_id@,
            old(room_account)@,
            authority@,
            oracle_feed@,
            staking_mint@,
            stake_vault@,
            bump,
        ) {
            Ok(d) => r == Ok::<(), ProgramError>(()) && final(room_account)@.data == d,
            Err(e) => r == Err::<(), ProgramError>(e)
                && final(room_account)@.data == old(room_account)@.data,
        },
{
    if !(room_account.owner == *program_id) {
        return Err(ProgramError::from(PredictChatError::InvalidOwner));
    }
    if room_account.data.len() != 0 {
        return Err(ProgramError::from(PredictChatError::AlreadyInitialized));
    }
    let room_state = RoomState {
        authority: authority.clone(),
        oracle_feed,
        staking_mint,
        stake_vault,
        bump,
    };
    let data = room_state.encode();
    proof {
        assert(room_state@ =~= RoomView {
            authority: authority@,
            oracle_feed: room_state.oracle_feed@,
            staking_mint: room_state.staking_mint@,
            stake_vault: room_state.stake_vault@,
            bump,
        });
    }
    room_account.data = data;
    Ok(())
}

// ---------------------------------------------------------------------------
// Stake commitment.
// ---------------------------------------------------------------------------

/// What `StakeAndCommit` does: the prediction slot's new data, or the exact
/// error.
///
/// Both slots must be program-owned, the prediction slot empty, and the room
/// slot must hold a decodable room; the new prediction is unresolved and tied
/// to the room slot's own address.
pub open spec fn spec_stake_and_commit(
    program_id: Seq<u8>,
    prediction_slot: SlotView,
    user: Seq<u8>,
    room_slot: SlotView,
    predicted_price: i64,
    expiry_slot: u64,
    stake: u64,
) -> Result<Seq<u8>, ProgramError> {
    if prediction_slot.owner != program_id {
        Err(ProgramError::Custom(spec_error_code(PredictChatError::InvalidOwner)))
    } else if room_slot.owner != program_id {
        Err(ProgramError::Custom(spec_error_code(PredictChatError::InvalidOwner)))
    } else if prediction_slot.data.len() != 0 {
        Err(ProgramError::Custom(spec_error_code(PredictChatError::AlreadyInitialized)))
    } else if !room_bytes_valid(room_slot.data) {
        Err(ProgramError::DecodeError)
    } else {
        Ok(spec_prediction_bytes(
            PredictionView {
                user,
                room: room_slot.key,
                predicted_price,
                expiry_slot,
                stake,
                resolved: false,
                won: false,
            },
        ))
    }
}

/// Records a user's commitment in an empty, program-owned slot, after
/// checking that the room slot holds a well-formed room.
///
/// Nothing demands that `expiry_slot` lie in the future or that `stake` be
/// nonzero, and no value moves: the stake is bookkeeping only.
pub fn process_stake_and_commit(
    program_id: &Address,
    prediction_account: &mut AccountSlot,
    user: &Address,
    room_account: &AccountSlot,
    predicted_price: i64,
    expiry_slot: u64,
    stake: u64,
) -> (r: Result<(), ProgramError>)
    ensures
        final(prediction_account)@.key == old(prediction_account)@.key,
        final(prediction_account)@.owner == old(prediction_account)@.owner,
        match spec_stake_and_commit(
            program_id@,
            old(prediction_account)@,
            user@,
            room_account@,
            predicted_price,
            expiry_slot,
            stake,
        ) {
            Ok(d) => r == Ok::<(), ProgramError>(()) && final(prediction_account)@.data == d,
            Err(e) => r == Err::<(), ProgramError>(e)
                && final(prediction_account)@.data == old(prediction_account)@.data,
        },
{
    if !(prediction_account.owner == *program_id) {
        return Err(ProgramError::from(PredictChatError::InvalidOwner));
    }
    if !(room_account.owner == *program_id) {
        return Err(ProgramError::from(PredictChatError::InvalidOwner));
    }
    if prediction_account.data.len() != 0 {
        return Err(ProgramError::from(PredictChatError::AlreadyInitialized));
    }
    let _room_state = match RoomState::decode(room_account.data.as_slice()) {
        Ok(room) => room,
        Err(e) => {
            return Err(e);
        },
    };
    let prediction_state = PredictionState {
        user: user.clone(),
        room: room_account.key.clone(),
        predicted_price,
        expiry_slot,
        stake,
        resolved: false,
        won: false,
    };
    let data = prediction_state.encode();
    proof {
        assert(prediction_state@ =~= PredictionView {
            user: user@,
            room: room_account.key@,
            predicted_price,
            expiry_slot,
            stake,
            resolved: false,
            won: false,
        });
    }
    prediction_account.data = data;
    Ok(())
}

// ---------------------------------------------------------------------------
// Settlement.
// ---------------------------------------------------------------------------

/// What `SettlePrediction` does: the prediction slot's new data, or the
/// exact error, in the handler's strict validation order.
///
/// The prediction wins if and only if the oracle-reported price is at least
/// the predicted price — a tie counts as a win.
pub open spec fn spec_settle_prediction(
    program_id: Seq<u8>,
    prediction_slot: SlotView,
    room_slot: SlotView,
    oracle_slot: SlotView,
    current_slot: u64,
) -> Result<Seq<u8>, ProgramError> {
    if prediction_slot.owner != program_id || room_slot.owner != program_id {
        Err(ProgramError::Custom(spec_error_code(PredictChatError::InvalidOwner)))
    } else if !prediction_bytes_valid(prediction_slot.data) {
        Err(ProgramError::DecodeError)
    } else if !room_bytes_valid(room_slot.data) {
        Err(ProgramError::DecodeError)
    } else {
        let p = spec_prediction_of_bytes(prediction_slot.data);
        if p.resolved {
            Err(ProgramError::Custom(spec_error_code(PredictChatError::AlreadySettled)))
        } else if p.room != room_slot.key {
            Err(ProgramError::Custom(spec_error_code(PredictChatError::InvalidRoom)))
        } else if current_slot < p.expiry_slot {
            Err(ProgramError::Custom(spec_error_code(PredictChatError::NotExpired)))
        } else if oracle_slot.data.len() < ORACLE_PRICE_LEN {
            Err(ProgramError::Custom(spec_error_code(PredictChatError::OracleDataTooSmall)))
        } else {
            let observed = spec_i64_from_le_bytes(oracle_slot.data.subrange(0, ORACLE_PRICE_LEN as int));
            Ok(spec_prediction_bytes(p.settled(observed >= p.predicted_price)))
        }
    }
}

/// Settles a prediction: exactly once, only after expiry, only against the
/// room it is tied to, and only from a program-owned pair of slots.
pub fn process_settle_prediction(
    program_id: &Address,
    prediction_account: &mut AccountSlot,
    room_account: &AccountSlot,
    oracle_account: &AccountSlot,
    current_slot: u64,
) -> (r: Result<(), ProgramError>)
    ensures
        final(prediction_account)@.key == old(prediction_account)@.key,
        final(prediction_account)@.owner == old(prediction_account)@.owner,
        match spec_settle_prediction(
            program_id@,
            old(prediction_account)@,
            room_account@,
            oracle_account@,
            current_slot,
        ) {
            Ok(d) => r == Ok::<(), ProgramError>(()) && final(prediction_account)@.data == d,
            Err(e) => r == Err::<(), ProgramError>(e)
                && final(prediction_account)@.data == old(prediction_account)@.data,
        },
{
    if !(prediction_account.owner == *program_id) || !(room_account.owner == *program_id) {
        return Err(ProgramError::from(PredictChatError::InvalidOwner));
    }
    let mut prediction_state = match PredictionState::decode(prediction_account.data.as_slice()) {
        Ok(p) => p,
        Err(e) => {
            return Err(e);
        },
    };
    let _room_state = match RoomState::decode(room_account.data.as_slice()) {
        Ok(room) => room,
        Err(e) => {
            return Err(e);
        },
    };
    if prediction_state.resolved {
        return Err(ProgramError::from(PredictChatError::AlreadySettled));
    }
    if !(prediction_state.room == room_account.key) {
        return Err(ProgramError::from(PredictChatError::InvalidRoom));
    }
    if current_slot < prediction_state.expiry_slot {
        return Err(ProgramError::from(PredictChatError::NotExpired));
    }
    if oracle_account.data.len() < ORACLE_PRICE_LEN {
        return Err(ProgramError::from(PredictChatError::OracleDataTooSmall));
    }
    let observed_price = i64_from_le_bytes(
        slice_subrange(oracle_account.data.as_slice(), 0, ORACLE_PRICE_LEN),
    );
    prediction_state.won = observed_price >= prediction_state.predicted_price;
    prediction_state.resolved = true;
    let ghost before = spec_prediction_of_bytes(old(prediction_account)@.data);
    proof {
        assert(prediction_state@ =~= before.settled(observed_price >= before.predicted_price));
    }
    let data = prediction_state.encode();
    prediction_account.data = data;
    Ok(())
}

// ---------------------------------------------------------------------------
// Settlement laws.
// ---------------------------------------------------------------------------

/// The guards that every settlement must pass before its own checks: both
/// slots program-owned, both entities decodable.
pub open spec fn settle_slots_ok(
    program_id: Seq<u8>,
    prediction_slot: SlotView,
    room_slot: SlotView,
) -> bool {
    &&& prediction_slot.owner == program_id
    &&& room_slot.owner == program_id
    &&& prediction_bytes_valid(prediction_slot.data)
    &&& room_bytes_valid(room_slot.data)
}

/// Law: settling an already-resolved prediction always fails with
/// `AlreadySettled`, whatever the oracle holds and whatever the slot is.
pub proof fn lemma_settle_twice_fails(
    program_id: Seq<u8>,
    prediction_slot: SlotView,
    room_slot: SlotView,
    oracle_slot: SlotView,
    current_slot: u64,
)
    requires
        settle_slots_ok(program_id, prediction_slot, room_slot),
        spec_prediction_of_bytes(prediction_slot.data).resolved,
    ensures
        spec_settle_prediction(program_id, prediction_slot, room_slot, oracle_slot, current_slot)
            == Err::<Seq<u8>, ProgramError>(
            ProgramError::Custom(spec_error_code(PredictChatError::AlreadySettled)),
        ),
{
}

/// Law: settlement is one-shot.  Whenever a settlement succeeds, any further
/// settlement of the slot now holding its result fails with `AlreadySettled`,
/// against any room that itself passes the owner and decode guards, any
/// oracle, and any slot.
pub proof fn lemma_settlement_is_one_shot(
    program_id: Seq<u8>,
    prediction_slot: SlotView,
    room_slot: SlotView,
    oracle_slot: SlotView,
    current_slot: u64,
    new_data: Seq<u8>,
    room_slot2: SlotView,
    oracle_slot2: SlotView,
    current_slot2: u64,
)
    requires
        spec_settle_prediction(program_id, prediction_slot, room_slot, oracle_slot, current_slot)
            == Ok::<Seq<u8>, ProgramError>(new_data),
        room_slot2.owner == program_id,
        room_bytes_valid(room_slot2.data),
    ensures
        spec_settle_prediction(
            program_id,
            SlotView { data: new_data, ..prediction_slot },
            room_slot2,
            oracle_slot2,
            current_slot2,
        ) == Err::<Seq<u8>, ProgramError>(
            ProgramError::Custom(spec_error_code(PredictChatError::AlreadySettled)),
        ),
{
    let p = spec_prediction_of_bytes(prediction_slot.data);
    let observed = spec_i64_from_le_bytes(oracle_slot.data.subrange(0, ORACLE_PRICE_LEN as int));
    let settled = p.settled(observed >= p.predicted_price);
    assert(prediction_bytes_valid(prediction_slot.data));
    assert(p.wf()) by {
        assert(p.user.len() == 32 && p.room.len() == 32);
    }
    crate::codec::lemma_prediction_round_trip(settled);
    assert(spec_prediction_of_bytes(new_data).resolved);
}

/// Law: before expiry, settlement fails with `NotExpired` — for every
/// current slot strictly below the prediction's expiry slot, whatever the
/// oracle holds.
pub proof fn lemma_settle_before_expiry_fails(
    program_id: Seq<u8>,
    prediction_slot: SlotView,
    room_slot: SlotView,
    oracle_slot: SlotView,
    current_slot: u64,
)
    requires
        settle_slots_ok(program_id, prediction_slot, room_slot),
        !spec_prediction_of_bytes(prediction_slot.data).resolved,
        spec_prediction_of_bytes(prediction_slot.data).room == room_slot.key,
        current_slot < spec_prediction_of_bytes(prediction_slot.data).expiry_slot,
    ensures
        spec_settle_prediction(program_id, prediction_slot, room_slot, oracle_slot, current_slot)
            == Err::<Seq<u8>, ProgramError>(
            ProgramError::Custom(spec_error_code(PredictChatError::NotExpired)),
        ),
{
}

/// Law: a foreign room is rejected — if the prediction's stored room differs
/// from the room slot's own address, settlement fails with `InvalidRoom`,
/// independent of the clock and the oracle.
pub proof fn lemma_settle_foreign_room_fails(
    program_id: Seq<u8>,
    prediction_slot: SlotView,
    room_slot: SlotView,
    oracle_slot: SlotView,
    current_slot: u64,
)
    requires
        settle_slots_ok(program_id, prediction_slot, room_slot),
        !spec_prediction_of_bytes(prediction_slot.data).resolved,
        spec_prediction_of_bytes(prediction_slot.data).room != room_slot.key,
    ensures
        spec_settle_prediction(program_id, prediction_slot, room_slot, oracle_slot, current_slot)
            == Err::<Seq<u8>, ProgramError>(
            ProgramError::Custom(spec_error_code(PredictChatError::InvalidRoom)),
        ),
{
}

/// Law: an oracle buffer shorter than eight bytes fails with
/// `OracleDataTooSmall`; no price is read, so the outcome does not depend on
/// what the short buffer holds.
pub proof fn lemma_settle_short_oracle_fails(
    program_id: Seq<u8>,
    prediction_slot: SlotView,
    room_slot: SlotView,
    oracle_slot: SlotView,
    current_slot: u64,
)
    requires
        settle_slots_ok(program_id, prediction_slot, room_slot),
        !spec_prediction_of_bytes(prediction_slot.data).resolved,
        spec_prediction_of_bytes(prediction_slot.data).room == room_slot.key,
        current_slot >= spec_prediction_of_bytes(prediction_slot.data).expiry_slot,
        oracle_slot.data.len() < ORACLE_PRICE_LEN,
    ensures
        spec_settle_prediction(program_id, prediction_slot, room_slot, oracle_slot, current_slot)
            == Err::<Seq<u8>, ProgramError>(
            ProgramError::Custom(spec_error_code(PredictChatError::OracleDataTooSmall)),
        ),
{
}

/// Law: the settlement outcome.  When every guard passes, settlement
/// succeeds, and the new data decodes to the old prediction with `resolved`
/// true and `won` set if and only if the observed price is at least the
/// predicted price — a tie counts as a win.
pub proof fn lemma_settle_outcome(
    program_id: Seq<u8>,
    prediction_slot: SlotView,
    room_slot: SlotView,
    oracle_slot: SlotView,
    current_slot: u64,
)
    requires
        settle_slots_ok(program_id, prediction_slot, room_slot),
        !spec_prediction_of_bytes(prediction_slot.data).resolved,
        spec_prediction_of_bytes(prediction_slot.data).room == room_slot.key,
        current_slot >= spec_prediction_of_bytes(prediction_slot.data).expiry_slot,
        oracle_slot.data.len() >= ORACLE_PRICE_LEN,
    ensures
        ({
            let p = spec_prediction_of_bytes(prediction_slot.data);
            let observed = spec_i64_from_le_bytes(
                oracle_slot.data.subrange(0, ORACLE_PRICE_LEN as int),
            );
            let r = spec_settle_prediction(
                program_id,
                prediction_slot,
                room_slot,
                oracle_slot,
                current_slot,
            );
            &&& r is Ok
            &&& prediction_bytes_valid(r->Ok_0)
            &&& spec_prediction_of_bytes(r->Ok_0) == p.settled(observed >= p.predicted_price)
            &&& spec_prediction_of_bytes(r->Ok_0).resolved
            &&& (spec_prediction_of_bytes(r->Ok_0).won <==> observed >= p.predicted_price)
            &&& spec_prediction_of_bytes(r->Ok_0).user == p.user
            &&& spec_prediction_of_bytes(r->Ok_0).room == p.room
            &&& spec_prediction_of_bytes(r->Ok_0).predicted_price == p.predicted_price
            &&& spec_prediction_of_bytes(r->Ok_0).expiry_slot == p.expiry_slot
            &&& spec_prediction_of_bytes(r->Ok_0).stake == p.stake
        }),
{
    let p = spec_prediction_of_bytes(prediction_slot.data);
    let observed = spec_i64_from_le_bytes(oracle_slot.data.subrange(0, ORACLE_PRICE_LEN as int));
    assert(p.wf()) by {
        assert(p.user.len() == 32 && p.room.len() == 32);
    }
    crate::codec::lemma_prediction_round_trip(p.settled(observed >= p.predicted_price));
}

// ---------------------------------------------------------------------------
// The router.
// ---------------------------------------------------------------------------

/// What one instruction does to the account list: the first slot's new data,
/// or the exact error.  Only the first slot is ever written.
pub open spec fn spec_process_instruction(
    program_id: Seq<u8>,
    slots: Seq<SlotView>,
    current_slot: u64,
    instruction_data: Seq<u8>,
) -> Result<Seq<u8>, ProgramError> {
    if !instruction_bytes_valid(instruction_data) {
        Err(ProgramError::InvalidInstructionData)
    } else {
        match spec_instruction_of_bytes(instruction_data) {
            InstructionView::InitializeRoom { oracle_feed, staking_mint, stake_vault, bump } => {
                if slots.len() < 2 {
                    Err(ProgramError::NotEnoughAccountKeys)
                } else {
                    spec_initialize_room(
                        program_id,
                        slots[0],
                        slots[1].key,
                        oracle_feed,
                        staking_mint,
                        stake_vault,
                        bump,
                    )
                }
            },
            InstructionView::StakeAndCommit { predicted_price, expiry_slot, stake } => {
                if slots.len() < 3 {
                    Err(ProgramError::NotEnoughAccountKeys)
                } else {
                    spec_stake_and_commit(
                        program_id,
                        slots[0],
                        slots[1].key,
                        slots[2],
                        predicted_price,
                        expiry_slot,
                        stake,
                    )
                }
            },
            InstructionView::SettlePrediction => {
                if slots.len() < 3 {
                    Err(ProgramError::NotEnoughAccountKeys)
                } else {
                    spec_settle_prediction(program_id, slots[0], slots[1], slots[2], current_slot)
                }
            },
        }
    }
}

/// Decodes the instruction and dispatches to its handler.
///
/// The accounts, in order, are: the written slot (room or prediction), then
/// the instruction's read-only accounts.  On any error every slot is left
/// unchanged.
pub fn process_instruction(
    program_id: &Address,
    accounts: &mut Vec<AccountSlot>,
    current_slot: u64,
    instruction_data: &[u8],
) -> (r: Result<(), ProgramError>)
    ensures
        final(accounts)@.len() == old(accounts)@.len(),
        forall|i: int|
            1 <= i < old(accounts)@.len() ==> final(accounts)@[i] == old(accounts)@[i],
        old(accounts)@.len() > 0 ==> final(accounts)@[0]@.key == old(accounts)@[0]@.key
            && final(accounts)@[0]@.owner == old(accounts)@[0]@.owner,
        match spec_process_instruction(
            program_id@,
            slots_view(old(accounts)@),
            current_slot,
            instruction_data@,
        ) {
            Ok(d) => r == Ok::<(), ProgramError>(()) && old(accounts)@.len() > 0
                && final(accounts)@[0]@.data == d,
            Err(e) => r == Err::<(), ProgramError>(e)
                && (old(accounts)@.len() > 0 ==> final(accounts)@[0]@ == old(accounts)@[0]@),
        },
{
    proof {
        assert forall|i: int| 0 <= i < old(accounts)@.len() implies #[trigger] slots_view(
            old(accounts)@,
        )[i] == old(accounts)@[i]@ by {}
    }
    let instruction = match PredictInstruction::decode(instruction_data) {
        Ok(ins) => ins,
        Err(e) => {
            return Err(e);
        },
    };
    match instruction {
        PredictInstruction::InitializeRoom { oracle_feed, staking_mint, stake_vault, bump } => {
            if accounts.len() < 2 {
                return Err(ProgramError::NotEnoughAccountKeys);
            }
            let authority = accounts[1].key.clone();
            let room_account = &mut accounts[0];
            process_initialize_room(
                program_id,
                room_account,
                &authority,
                oracle_feed,
                staking_mint,
                stake_vault,
                bump,
            )
        },
        PredictInstruction::StakeAndCommit { predicted_price, expiry_slot, stake } => {
            if accounts.len() < 3 {
                return Err(ProgramError::NotEnoughAccountKeys);
            }
            let user = accounts[1].key.clone();
            let room_slot = accounts[2].clone();
            let prediction_account = &mut accounts[0];
            process_stake_and_commit(
                program_id,
                prediction_account,
                &user,
                &room_slot,
                predicted_price,
                expiry_slot,
                stake,
            )
        },
        PredictInstruction::SettlePrediction {} => {
            if accounts.len() < 3 {
                return Err(ProgramError::NotEnoughAccountKeys);
            }
            let room_slot = accounts[1].clone();
            let oracle_slot = accounts[2].clone();
            let prediction_account = &mut accounts[0];
            process_settle_prediction(
                program_id,
                prediction_account,
                &room_slot,
                &oracle_slot,
                current_slot,
            )
        },
    }
}

} // verus!
