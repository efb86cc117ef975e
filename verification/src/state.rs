//! The two persisted entities and the account slots that hold them.
//!
//! A `RoomState` registers a prediction market; a `PredictionState` binds a
//! user to a room, a price target, an expiry slot and a stake.  Both live in
//! host-managed account slots, which the handlers receive as plain buffers.

use vstd::prelude::*;
use crate::addr::Address;
use crate::ADDRESS_LEN;

verus! {

/// A prediction room, immutable after creation.
#[derive(Debug, Clone, PartialEq, Eq)]
pub struct RoomState {
    /// Identity of the room's creator.
    pub authority: Address,
    /// The account supplying price data at settlement.
    pub oracle_feed: Address,
    /// The value unit recorded for stakes.
    pub staking_mint: Address,
    /// The custody location recorded for stakes.
    pub stake_vault: Address,
    /// Derivation byte of the external address-derivation scheme.
    pub bump: u8,
}

/// The mathematical content of a room: each address as its bytes.
#[verifier::ext_equal]
pub ghost struct RoomView {
    pub authority: Seq<u8>,
    pub oracle_feed: Seq<u8>,
    pub staking_mint: Seq<u8>,
    pub stake_vault: Seq<u8>,
    pub bump: u8,
}

impl RoomView {
    /// Each address field holds exactly [`ADDRESS_LEN`] bytes.
    pub open spec fn wf(self) -> bool {
        &&& self.authority.len() == ADDRESS_LEN
        &&& self.oracle_feed.len() == ADDRESS_LEN
        &&& self.staking_mint.len() == ADDRESS_LEN
        &&& self.stake_vault.len() == ADDRESS_LEN
    }
}

impl View for RoomState {
    type V = RoomView;

    open spec fn view(&self) -> RoomView {
        RoomView {
            authority: self.authority@,
            oracle_feed: self.oracle_feed@,
            staking_mint: self.staking_mint@,
            stake_vault: self.stake_vault@,
            bump: self.bump,
        }
    }
}

/// A user's commitment, mutable exactly once (at settlement).
#[derive(Debug, Clone, PartialEq, Eq)]
pub struct PredictionState {
    /// Identity of the committer.
    pub user: Address,
    /// The room account this commitment belongs to.
    pub room: Address,
    /// Signed price target.
    pub predicted_price: i64,
    /// Slot after which settlement is permitted.
    pub expiry_slot: u64,
    /// Stake quantity recorded for the commitment.
    pub stake: u64,
    /// False until settlement succeeds, then permanently true.
    pub resolved: bool,
    /// Outcome of the settlement; meaningful only once `resolved` is true.
    pub won: bool,
}

/// The mathematical content of a prediction.
#[verifier::ext_equal]
pub ghost struct PredictionView {
    pub user: Seq<u8>,
    pub room: Seq<u8>,
    pub predicted_price: i64,
    pub expiry_slot: u64,
    pub stake: u64,
    pub resolved: bool,
    pub won: bool,
}

impl PredictionView {
    /// Each address field holds exactly [`ADDRESS_LEN`] bytes.
    pub open spec fn wf(self) -> bool {
        &&& self.user.len() == ADDRESS_LEN
        &&& self.room.len() == ADDRESS_LEN
    }

    /// This prediction, settled with the given outcome.
    pub open spec fn settled(self, won: bool) -> PredictionView {
        PredictionView { resolved: true, won, ..self }
    }
}

impl View for PredictionState {
    type V = PredictionView;

    open spec fn view(&self) -> PredictionView {
        PredictionView {
            user: self.user@,
            room: self.room@,
            predicted_price: self.predicted_price,
            expiry_slot: self.expiry_slot,
            stake: self.stake,
            resolved: self.resolved,
            won: self.won,
        }
    }
}

/// One storage slot of the host's account space, as the handlers see it:
/// its own address, the program that owns it, and its raw data bytes.
#[derive(Debug)]
pub struct AccountSlot {
    /// The slot's own address.
    pub key: Address,
    /// The program tagged as owning the slot.
    pub owner: Address,
    /// The slot's persisted bytes.
    pub data: Vec<u8>,
}

/// The mathematical content of an account slot.
#[verifier::ext_equal]
pub ghost struct SlotView {
    pub key: Seq<u8>,
    pub owner: Seq<u8>,
    pub data: Seq<u8>,
}

impl View for AccountSlot {
    type V = SlotView;

    open spec fn view(&self) -> SlotView {
        SlotView { key: self.key@, owner: self.owner@, data: self.data@ }
    }
}

impl Clone for AccountSlot {
    fn clone(&self) -> (r: AccountSlot)
        ensures
            r@ == self@,
    {
        let data = self.data.clone();
        proof {
            assert(data@ =~= self.data@);
        }
        AccountSlot { key: self.key.clone(), owner: self.owner.clone(), data }
    }
}

} // verus!
