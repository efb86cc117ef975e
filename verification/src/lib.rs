//! On-chain settlement core for a price-prediction market.
//!
//! A room authority registers a prediction room, users stake a commitment on
//! a future price, and a commitment is settled exactly once against an
//! oracle-reported price after its expiry slot.  The library holds the
//! instruction codec, the persisted-state codec, the three instruction
//! handlers and the router; account storage, transaction signing and clock
//! provisioning belong to the host environment, which hands the handlers
//! plain byte buffers and the current slot.

use vstd::prelude::*;

pub mod addr;
pub mod codec;
pub mod error;
pub mod instruction;
pub mod processor;
pub mod state;

verus! {

/// Length in bytes of an account address.
pub const ADDRESS_LEN: usize = 32;

} // verus!
