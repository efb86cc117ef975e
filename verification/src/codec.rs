//! Fixed-layout binary codec for the persisted entities.
//!
//! Every field is little-endian and fixed-width; an entity's encoding is the
//! concatenation of its fields in declaration order.  A room encodes to
//! exactly [`ROOM_STATE_LEN`] bytes and a prediction to exactly
//! [`PREDICTION_STATE_LEN`] bytes; decoding demands exactly that length (and,
//! for booleans, a `0` or `1` byte) and fails otherwise with
//! [`ProgramError::DecodeError`].

use vstd::prelude::*;
use vstd::bytes::{
    lemma_auto_spec_u64_to_from_le_bytes, spec_u64_from_le_bytes, spec_u64_to_le_bytes,
    u64_from_le_bytes, u64_to_le_bytes,
};
use vstd::pervasive::unreached;
use vstd::slice::{slice_subrange, slice_to_vec};
use crate::addr::Address;
use crate::error::ProgramError;
use crate::state::{PredictionState, PredictionView, RoomState, RoomView};
use crate::ADDRESS_LEN;

verus! {

/// Encoded length of a room: four 32-byte addresses and the bump byte.
pub const ROOM_STATE_LEN: usize = 129;

/// Encoded length of a prediction: two 32-byte addresses, three 8-byte
/// integers and two boolean bytes.
pub const PREDICTION_STATE_LEN: usize = 90;

// ---------------------------------------------------------------------------
// Little-endian signed 64-bit integers, via their unsigned bit pattern.
// ---------------------------------------------------------------------------

/// The little-endian encoding of a signed 64-bit integer.
pub open spec fn spec_i64_to_le_bytes(x: i64) -> Seq<u8> {
    spec_u64_to_le_bytes(x as u64)
}

/// The signed 64-bit integer read from eight little-endian bytes.
pub open spec fn spec_i64_from_le_bytes(s: Seq<u8>) -> i64 {
    spec_u64_from_le_bytes(s) as i64
}

/// Casting an `i64` through `u64` and back is the identity, and vice versa.
pub proof fn lemma_i64_u64_cast_round_trip()
    ensures
        forall|x: i64| #[trigger] ((x as u64) as i64) == x,
        forall|y: u64| #[trigger] ((y as i64) as u64) == y,
{
    assert forall|x: i64| #[trigger] ((x as u64) as i64) == x by {
        assert((x as u64) as i64 == x) by (bit_vector);
    }
    assert forall|y: u64| #[trigger] ((y as i64) as u64) == y by {
        assert((y as i64) as u64 == y) by (bit_vector);
    }
}

/// The signed little-endian encoding round-trips in both directions.
pub proof fn lemma_i64_le_bytes_round_trip()
    ensures
        forall|x: i64|
            #![trigger spec_i64_to_le_bytes(x)]
            {
                &&& spec_i64_to_le_bytes(x).len() == 8
                &&& spec_i64_from_le_bytes(spec_i64_to_le_bytes(x)) == x
            },
        forall|s: Seq<u8>|
            #![trigger spec_i64_to_le_bytes(spec_i64_from_le_bytes(s))]
            s.len() == 8 ==> spec_i64_to_le_bytes(spec_i64_from_le_bytes(s)) == s,
{
    lemma_auto_spec_u64_to_from_le_bytes();
    lemma_i64_u64_cast_round_trip();
}

/// Reads a signed 64-bit integer from eight little-endian bytes.
pub fn i64_from_le_bytes(s: &[u8]) -> (x: i64)
    requires
        s@.len() == 8,
    ensures
        x == spec_i64_from_le_bytes(s@),
{
    let u = u64_from_le_bytes(s);
    #[verifier::truncate] (u as i64)
}

/// Writes a signed 64-bit integer as eight little-endian bytes.
pub fn i64_to_le_bytes(x: i64) -> (s: Vec<u8>)
    ensures
        s@ == spec_i64_to_le_bytes(x),
        s@.len() == 8,
{
    u64_to_le_bytes(#[verifier::truncate] (x as u64))
}

// ---------------------------------------------------------------------------
// Byte-buffer helpers.
// ---------------------------------------------------------------------------

/// The byte encoding a boolean: `1` for true, `0` for false.
pub open spec fn spec_bool_byte(b: bool) -> u8 {
    if b {
        1
    } else {
        0
    }
}

/// Appends all of `src` to `out`.
pub fn push_bytes(out: &mut Vec<u8>, src: &[u8])
    ensures
        final(out)@ == old(out)@ + src@,
{
    out.extend_from_slice(src);
    proof {
        assert forall|i: int| 0 <= i < out@.len() implies out@[i] == (old(out)@ + src@)[i] by {}
        assert(out@ =~= old(out)@ + src@);
    }
}

/// Reads the [`ADDRESS_LEN`] bytes starting at `start` as an address.
pub(crate) fn read_address(bytes: &[u8], start: usize) -> (r: Address)
    requires
        start + ADDRESS_LEN <= bytes@.len(),
    ensures
        r@ == bytes@.subrange(start as int, start + ADDRESS_LEN),
{
    let len = bytes.len();
    proof {
        assert(start + ADDRESS_LEN <= len);
    }
    let sub = slice_subrange(bytes, start, start + ADDRESS_LEN);
    let v = slice_to_vec(sub);
    match Address::from_bytes(v) {
        Some(a) => a,
        None => {
            proof {
                assert(false);
            }
            unreached()
        },
    }
}

// ---------------------------------------------------------------------------
// Room codec.
// ---------------------------------------------------------------------------

/// The canonical encoding of a room.
pub open spec fn spec_room_bytes(v: RoomView) -> Seq<u8> {
    v.authority + v.oracle_feed + v.staking_mint + v.stake_vault + seq![v.bump]
}

/// Whether a byte buffer is a valid room encoding.
pub open spec fn room_bytes_valid(s: Seq<u8>) -> bool {
    s.len() == ROOM_STATE_LEN
}

/// The room read from a valid room encoding.
pub open spec fn spec_room_of_bytes(s: Seq<u8>) -> RoomView
    recommends
        room_bytes_valid(s),
{
    RoomView {
        authority: s.subrange(0, 32),
        oracle_feed: s.subrange(32, 64),
        staking_mint: s.subrange(64, 96),
        stake_vault: s.subrange(96, 128),
        bump: s[128],
    }
}

impl RoomState {
    /// Encodes this room to its canonical [`ROOM_STATE_LEN`] bytes.
    pub fn encode(&self) -> (r: Vec<u8>)
        ensures
            r@ == spec_room_bytes(self@),
            room_bytes_valid(r@),
    {
        proof {
            use_type_invariant(&self.authority);
            use_type_invariant(&self.oracle_feed);
            use_type_invariant(&self.staking_mint);
            use_type_invariant(&self.stake_vault);
        }
        let mut out: Vec<u8> = Vec::new();
        push_bytes(&mut out, self.authority.as_bytes().as_slice());
        push_bytes(&mut out, self.oracle_feed.as_bytes().as_slice());
        push_bytes(&mut out, self.staking_mint.as_bytes().as_slice());
        push_bytes(&mut out, self.stake_vault.as_bytes().as_slice());
        out.push(self.bump);
        proof {
            assert(out@ =~= spec_room_bytes(self@));
        }
        out
    }

    /// Decodes a room from exactly [`ROOM_STATE_LEN`] bytes.
    pub fn decode(bytes: &[u8]) -> (r: Result<RoomState, ProgramError>)
        ensures
            match r {
                Ok(room) => {
                    &&& room_bytes_valid(bytes@)
                    &&& room@ == spec_room_of_bytes(bytes@)
                    &&& room@.wf()
                },
                Err(e) => {
                    &&& !room_bytes_valid(bytes@)
                    &&& e == ProgramError::DecodeError
                },
            },
    {
        if bytes.len() != ROOM_STATE_LEN {
            return Err(ProgramError::DecodeError);
        }
        let authority = read_address(bytes, 0);
        let oracle_feed = read_address(bytes, 32);
        let staking_mint = read_address(bytes, 64);
        let stake_vault = read_address(bytes, 96);
        let bump = bytes[128];
        Ok(RoomState { authority, oracle_feed, staking_mint, stake_vault, bump })
    }
}

/// Law: decoding inverts encoding — every well-formed room view decodes from
/// its own encoding.
pub proof fn lemma_room_round_trip(v: RoomView)
    requires
        v.wf(),
    ensures
        room_bytes_valid(spec_room_bytes(v)),
        spec_room_of_bytes(spec_room_bytes(v)) == v,
{
    let s = spec_room_bytes(v);
    assert(s.subrange(0, 32) =~= v.authority);
    assert(s.subrange(32, 64) =~= v.oracle_feed);
    assert(s.subrange(64, 96) =~= v.staking_mint);
    assert(s.subrange(96, 128) =~= v.stake_vault);
    assert(s[128] == v.bump);
}

// ---------------------------------------------------------------------------
// Prediction codec.
// ---------------------------------------------------------------------------

/// The canonical encoding of a prediction.
pub open spec fn spec_prediction_bytes(v: PredictionView) -> Seq<u8> {
    v.user + v.room + spec_i64_to_le_bytes(v.predicted_price)
        + spec_u64_to_le_bytes(v.expiry_slot) + spec_u64_to_le_bytes(v.stake)
        + seq![spec_bool_byte(v.resolved), spec_bool_byte(v.won)]
}

/// Whether a byte buffer is a valid prediction encoding: exact length, and
/// each boolean byte either `0` or `1`.
pub open spec fn prediction_bytes_valid(s: Seq<u8>) -> bool {
    &&& s.len() == PREDICTION_STATE_LEN
    &&& (s[88] == 0 || s[88] == 1)
    &&& (s[89] == 0 || s[89] == 1)
}

/// The prediction read from a valid prediction encoding.
pub open spec fn spec_prediction_of_bytes(s: Seq<u8>) -> PredictionView
    recommends
        prediction_bytes_valid(s),
{
    PredictionView {
        user: s.subrange(0, 32),
        room: s.subrange(32, 64),
        predicted_price: spec_i64_from_le_bytes(s.subrange(64, 72)),
        expiry_slot: spec_u64_from_le_bytes(s.subrange(72, 80)),
        stake: spec_u64_from_le_bytes(s.subrange(80, 88)),
        resolved: s[88] == 1,
        won: s[89] == 1,
    }
}

impl PredictionState {
    /// Encodes this prediction to its canonical [`PREDICTION_STATE_LEN`] bytes.
    pub fn encode(&self) -> (r: Vec<u8>)
        ensures
            r@ == spec_prediction_bytes(self@),
            prediction_bytes_valid(r@),
    {
        proof {
            use_type_invariant(&self.user);
            use_type_invariant(&self.room);
        }
        let mut out: Vec<u8> = Vec::new();
        push_bytes(&mut out, self.user.as_bytes().as_slice());
        push_bytes(&mut out, self.room.as_bytes().as_slice());
        let mut price = i64_to_le_bytes(self.predicted_price);
        out.append(&mut price);
        let mut expiry = u64_to_le_bytes(self.expiry_slot);
        out.append(&mut expiry);
        let mut stake = u64_to_le_bytes(self.stake);
        out.append(&mut stake);
        out.push(if self.resolved {
            1
        } else {
            0
        });
        out.push(if self.won {
            1
        } else {
            0
        });
        proof {
            assert(out@ =~= spec_prediction_bytes(self@));
        }
        out
    }

    /// Decodes a prediction from exactly [`PREDICTION_STATE_LEN`] bytes whose
    /// boolean bytes are `0` or `1`.
    pub fn decode(bytes: &[u8]) -> (r: Result<PredictionState, ProgramError>)
        ensures
            match r {
                Ok(p) => {
                    &&& prediction_bytes_valid(bytes@)
                    &&& p@ == spec_prediction_of_bytes(bytes@)
                    &&& p@.wf()
                },
                Err(e) => {
                    &&& !prediction_bytes_valid(bytes@)
                    &&& e == ProgramError::DecodeError
                },
            },
    {
        if bytes.len() != PREDICTION_STATE_LEN {
            return Err(ProgramError::DecodeError);
        }
        let resolved_byte = bytes[88];
        let won_byte = bytes[89];
        if resolved_byte > 1 || won_byte > 1 {
            return Err(ProgramError::DecodeError);
        }
        let user = read_address(bytes, 0);
        let room = read_address(bytes, 32);
        let predicted_price = i64_from_le_bytes(slice_subrange(bytes, 64, 72));
        let expiry_slot = u64_from_le_bytes(slice_subrange(bytes, 72, 80));
        let stake = u64_from_le_bytes(slice_subrange(bytes, 80, 88));
        Ok(PredictionState {
            user,
            room,
            predicted_price,
            expiry_slot,
            stake,
            resolved: resolved_byte == 1,
            won: won_byte == 1,
        })
    }
}

/// Law: decoding inverts encoding — every well-formed prediction view decodes
/// from its own encoding.
pub proof fn lemma_prediction_round_trip(v: PredictionView)
    requires
        v.wf(),
    ensures
        prediction_bytes_valid(spec_prediction_bytes(v)),
        spec_prediction_of_bytes(spec_prediction_bytes(v)) == v,
{
    lemma_i64_le_bytes_round_trip();
    lemma_auto_spec_u64_to_from_le_bytes();
    let s = spec_prediction_bytes(v);
    assert(spec_i64_to_le_bytes(v.predicted_price).len() == 8);
    assert(s.subrange(0, 32) =~= v.user);
    assert(s.subrange(32, 64) =~= v.room);
    assert(s.subrange(64, 72) =~= spec_i64_to_le_bytes(v.predicted_price));
    assert(s.subrange(72, 80) =~= spec_u64_to_le_bytes(v.expiry_slot));
    assert(s.subrange(80, 88) =~= spec_u64_to_le_bytes(v.stake));
    assert(s[88] == spec_bool_byte(v.resolved));
    assert(s[89] == spec_bool_byte(v.won));
}

} // verus!
