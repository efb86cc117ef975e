//! Error taxonomy of the settlement core.
//!
//! Domain errors carry a stable numeric code that is part of the observable
//! contract; the mapping is an explicit table, not positional derivation.

use vstd::prelude::*;

verus! {

/// Domain errors of the prediction protocol.
///
/// Each variant has a stable numeric code, given by [`spec_error_code`] and
/// [`PredictChatError::code`]; the codes surface to callers unchanged.
#[derive(Clone, Copy, Debug, PartialEq, Eq, Structural)]
pub enum PredictChatError {
    /// An account is not tagged as owned by this program.
    InvalidOwner,
    /// The target account already holds data.
    AlreadyInitialized,
    /// The prediction was settled before.
    AlreadySettled,
    /// The current slot is still before the prediction's expiry slot.
    NotExpired,
    /// The prediction is tied to a different room account.
    InvalidRoom,
    /// The oracle account holds fewer than eight bytes.
    OracleDataTooSmall,
}

/// The stable numeric code of each domain error.
pub open spec fn spec_error_code(e: PredictChatError) -> u32 {
    match e {
        PredictChatError::InvalidOwner => 0,
        PredictChatError::AlreadyInitialized => 1,
        PredictChatError::AlreadySettled => 2,
        PredictChatError::NotExpired => 3,
        PredictChatError::InvalidRoom => 4,
        PredictChatError::OracleDataTooSmall => 5,
    }
}

impl PredictChatError {
    /// The stable numeric code of this error.
    pub fn code(&self) -> (r: u32)
        ensures
            r == spec_error_code(*self),
    {
        match self {
            PredictChatError::InvalidOwner => 0,
            PredictChatError::AlreadyInitialized => 1,
            PredictChatError::AlreadySettled => 2,
            PredictChatError::NotExpired => 3,
            PredictChatError::InvalidRoom => 4,
            PredictChatError::OracleDataTooSmall => 5,
        }
    }
}

/// Errors reported to the host environment by the instruction handlers.
#[derive(Clone, Copy, Debug, PartialEq, Eq, Structural)]
pub enum ProgramError {
    /// A domain error, carrying its stable numeric code.
    Custom(u32),
    /// The instruction payload did not decode.
    InvalidInstructionData,
    /// The instruction was handed fewer accounts than it needs.
    NotEnoughAccountKeys,
    /// A persisted entity did not decode from its account's bytes.
    DecodeError,
}

impl From<PredictChatError> for ProgramError {
    fn from(value: PredictChatError) -> (r: ProgramError) {
        ProgramError::Custom(value.code())
    }
}

impl vstd::std_specs::convert::FromSpecImpl<PredictChatError> for ProgramError {
    open spec fn obeys_from_spec() -> bool {
        true
    }

    open spec fn from_spec(t: PredictChatError) -> ProgramError {
        ProgramError::Custom(spec_error_code(t))
    }
}

} // verus!
