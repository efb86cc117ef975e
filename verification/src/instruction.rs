//! The opcode-tagged instruction union and its wire codec.
//!
//! An instruction is one leading tag byte followed by a fixed-width,
//! little-endian payload.  Decoding demands the exact length for the tag and
//! fails otherwise with [`ProgramError::InvalidInstructionData`].

use vstd::prelude::*;
use vstd::bytes::{
    lemma_auto_spec_u64_to_from_le_bytes, spec_u64_from_le_bytes, spec_u64_to_le_bytes,
    u64_from_le_bytes, u64_to_le_bytes,
};
use vstd::slice::slice_subrange;
use crate::addr::Address;
use crate::codec::{
    i64_from_le_bytes, i64_to_le_bytes, lemma_i64_le_bytes_round_trip, push_bytes,
    read_address, spec_i64_from_le_bytes, spec_i64_to_le_bytes,
};
use crate::error::ProgramError;

verus! {

/// Tag byte selecting room initialization.
pub const TAG_INITIALIZE_ROOM: u8 = 0;

/// Tag byte selecting a stake commitment.
pub const TAG_STAKE_AND_COMMIT: u8 = 1;

/// Tag byte selecting settlement.
pub const TAG_SETTLE_PREDICTION: u8 = 2;

/// Encoded length of an `InitializeRoom` instruction: the tag, three
/// addresses and the bump byte.
pub const INITIALIZE_ROOM_IX_LEN: usize = 98;

/// Encoded length of a `StakeAndCommit` instruction: the tag and three
/// 8-byte integers.
pub const STAKE_AND_COMMIT_IX_LEN: usize = 25;

/// Encoded length of a `SettlePrediction` instruction: the tag alone.
pub const SETTLE_PREDICTION_IX_LEN: usize = 1;

/// One instruction of the protocol.
#[derive(Debug, Clone, PartialEq, Eq)]
pub enum PredictInstruction {
    /// Registers a room in an empty, program-owned account.
    InitializeRoom { oracle_feed: Address, staking_mint: Address, stake_vault: Address, bump: u8 },
    /// Records a user's commitment in an empty, program-owned account.
    StakeAndCommit { predicted_price: i64, expiry_slot: u64, stake: u64 },
    /// Settles a commitment against the oracle-reported price.
    SettlePrediction {},
}

/// The mathematical content of an instruction.
#[verifier::ext_equal]
pub ghost enum InstructionView {
    InitializeRoom { oracle_feed: Seq<u8>, staking_mint: Seq<u8>, stake_vault: Seq<u8>, bump: u8 },
    StakeAndCommit { predicted_price: i64, expiry_slot: u64, stake: u64 },
    SettlePrediction,
}

impl InstructionView {
    /// Each address field holds exactly [`crate::ADDRESS_LEN`] bytes.
    pub open spec fn wf(self) -> bool {
        match self {
            InstructionView::InitializeRoom { oracle_feed, staking_mint, stake_vault, bump } => {
                &&& oracle_feed.len() == crate::ADDRESS_LEN
                &&& staking_mint.len() == crate::ADDRESS_LEN
                &&& stake_vault.len() == crate::ADDRESS_LEN
            },
            _ => true,
        }
    }
}

impl View for PredictInstruction {
    type V = InstructionView;

    open spec fn view(&self) -> InstructionView {
        match self {
            PredictInstruction::InitializeRoom { oracle_feed, staking_mint, stake_vault, bump } =>
                InstructionView::InitializeRoom {
                    oracle_feed: oracle_feed@,
                    staking_mint: staking_mint@,
                    stake_vault: stake_vault@,
                    bump: *bump,
                },
            PredictInstruction::StakeAndCommit { predicted_price, expiry_slot, stake } =>
                InstructionView::StakeAndCommit {
                    predicted_price: *predicted_price,
                    expiry_slot: *expiry_slot,
                    stake: *stake,
                },
            PredictInstruction::SettlePrediction {} => InstructionView::SettlePrediction,
        }
    }
}

/// The canonical encoding of an instruction.
pub open spec fn spec_instruction_bytes(v: InstructionView) -> Seq<u8> {
    match v {
        InstructionView::InitializeRoom { oracle_feed, staking_mint, stake_vault, bump } =>
            seq![TAG_INITIALIZE_ROOM] + oracle_feed + staking_mint + stake_vault + seq![bump],
        InstructionView::StakeAndCommit { predicted_price, expiry_slot, stake } =>
            seq![TAG_STAKE_AND_COMMIT] + spec_i64_to_le_bytes(predicted_price)
                + spec_u64_to_le_bytes(expiry_slot) + spec_u64_to_le_bytes(stake),
        InstructionView::SettlePrediction => seq![TAG_SETTLE_PREDICTION],
    }
}

/// Whether a byte buffer is a valid instruction encoding: a known tag byte
/// followed by a payload of exactly the tag's length.
pub open spec fn instruction_bytes_valid(s: Seq<u8>) -> bool {
    &&& s.len() >= 1
    &&& {
        ||| (s[0] == TAG_INITIALIZE_ROOM && s.len() == INITIALIZE_ROOM_IX_LEN)
        ||| (s[0] == TAG_STAKE_AND_COMMIT && s.len() == STAKE_AND_COMMIT_IX_LEN)
        ||| (s[0] == TAG_SETTLE_PREDICTION && s.len() == SETTLE_PREDICTION_IX_LEN)
    }
}

/// The instruction read from a valid instruction encoding.
pub open spec fn spec_instruction_of_bytes(s: Seq<u8>) -> InstructionView
    recommends
        instruction_bytes_valid(s),
{
    if s[0] == TAG_INITIALIZE_ROOM {
        InstructionView::InitializeRoom {
            oracle_feed: s.subrange(1, 33),
            staking_mint: s.subrange(33, 65),
            stake_vault: s.subrange(65, 97),
            bump: s[97],
        }
    } else if s[0] == TAG_STAKE_AND_COMMIT {
        InstructionView::StakeAndCommit {
            predicted_price: spec_i64_from_le_bytes(s.subrange(1, 9)),
            expiry_slot: spec_u64_from_le_bytes(s.subrange(9, 17)),
            stake: spec_u64_from_le_bytes(s.subrange(17, 25)),
        }
    } else {
        InstructionView::SettlePrediction
    }
}

impl PredictInstruction {
    /// Encodes this instruction to its canonical bytes.
    pub fn encode(&self) -> (r: Vec<u8>)
        ensures
            r@ == spec_instruction_bytes(self@),
            instruction_bytes_valid(r@),
    {
        let mut out: Vec<u8> = Vec::new();
        match self {
            PredictInstruction::InitializeRoom { oracle_feed, staking_mint, stake_vault, bump } => {
                proof {
                    use_type_invariant(oracle_feed);
                    use_type_invariant(staking_mint);
                    use_type_invariant(stake_vault);
                }
                out.push(TAG_INITIALIZE_ROOM);
                push_bytes(&mut out, oracle_feed.as_bytes().as_slice());
                push_bytes(&mut out, staking_mint.as_bytes().as_slice());
                push_bytes(&mut out, stake_vault.as_bytes().as_slice());
                out.push(*bump);
            },
            PredictInstruction::StakeAndCommit { predicted_price, expiry_slot, stake } => {
                out.push(TAG_STAKE_AND_COMMIT);
                let mut price = i64_to_le_bytes(*predicted_price);
                out.append(&mut price);
                let mut expiry = u64_to_le_bytes(*expiry_slot);
                out.append(&mut expiry);
                let mut stake_bytes = u64_to_le_bytes(*stake);
                out.append(&mut stake_bytes);
            },
            PredictInstruction::SettlePrediction {} => {
                out.push(TAG_SETTLE_PREDICTION);
            },
        }
        proof {
            assert(out@ =~= spec_instruction_bytes(self@));
        }
        out
    }

    /// Decodes an instruction, failing with
    /// [`ProgramError::InvalidInstructionData`] on any malformed payload.
    pub fn decode(bytes: &[u8]) -> (r: Result<PredictInstruction, ProgramError>)
        ensures
            match r {
                Ok(ins) => {
                    &&& instruction_bytes_valid(bytes@)
                    &&& ins@ == spec_instruction_of_bytes(bytes@)
                    &&& ins@.wf()
                },
                Err(e) => {
                    &&& !instruction_bytes_valid(bytes@)
                    &&& e == ProgramError::InvalidInstructionData
                },
            },
    {
        if bytes.len() == 0 {
            return Err(ProgramError::InvalidInstructionData);
        }
        let tag = bytes[0];
        if tag == TAG_INITIALIZE_ROOM {
            if bytes.len() != INITIALIZE_ROOM_IX_LEN {
                return Err(ProgramError::InvalidInstructionData);
            }
            let oracle_feed = read_address(bytes, 1);
            let staking_mint = read_address(bytes, 33);
            let stake_vault = read_address(bytes, 65);
            let bump = bytes[97];
            Ok(PredictInstruction::InitializeRoom { oracle_feed, staking_mint, stake_vault, bump })
        } else if tag == TAG_STAKE_AND_COMMIT {
            if bytes.len() != STAKE_AND_COMMIT_IX_LEN {
                return Err(ProgramError::InvalidInstructionData);
            }
            let predicted_price = i64_from_le_bytes(slice_subrange(bytes, 1, 9));
            let expiry_slot = u64_from_le_bytes(slice_subrange(bytes, 9, 17));
            let stake = u64_from_le_bytes(slice_subrange(bytes, 17, 25));
            Ok(PredictInstruction::StakeAndCommit { predicted_price, expiry_slot, stake })
        } else if tag == TAG_SETTLE_PREDICTION {
            if bytes.len() != SETTLE_PREDICTION_IX_LEN {
                return Err(ProgramError::InvalidInstructionData);
            }
            Ok(PredictInstruction::SettlePrediction {})
        } else {
            Err(ProgramError::InvalidInstructionData)
        }
    }
}

/// Law: decoding inverts encoding — every well-formed instruction view
/// decodes from its own encoding.
pub proof fn lemma_instruction_round_trip(v: InstructionView)
    requires
        v.wf(),
    ensures
        instruction_bytes_valid(spec_instruction_bytes(v)),
        spec_instruction_of_bytes(spec_instruction_bytes(v)) == v,
{
    lemma_i64_le_bytes_round_trip();
    lemma_auto_spec_u64_to_from_le_bytes();
    let s = spec_instruction_bytes(v);
    match v {
        InstructionView::InitializeRoom { oracle_feed, staking_mint, stake_vault, bump } => {
            assert(s.subrange(1, 33) =~= oracle_feed);
            assert(s.subrange(33, 65) =~= staking_mint);
            assert(s.subrange(65, 97) =~= stake_vault);
            assert(s[97] == bump);
        },
        InstructionView::StakeAndCommit { predicted_price, expiry_slot, stake } => {
            assert(spec_i64_to_le_bytes(predicted_price).len() == 8);
            assert(s.subrange(1, 9) =~= spec_i64_to_le_bytes(predicted_price));
            assert(s.subrange(9, 17) =~= spec_u64_to_le_bytes(expiry_slot));
            assert(s.subrange(17, 25) =~= spec_u64_to_le_bytes(stake));
        },
        InstructionView::SettlePrediction => {},
    }
}

} // verus!
