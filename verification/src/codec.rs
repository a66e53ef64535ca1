//! Encoding of actions into the fixed-width records that cross the engine
//! boundary.
//!
//! A record is `ACTION_SIZE` unsigned 32-bit words: word 0 is a tag and the
//! remaining words carry the variant payload. Records exist so that the hot
//! generation loop moves plain words instead of dispatching dynamically.

use vstd::prelude::*;
use crate::action::Action;

verus! {

/// Number of 32-bit words in an encoded action record.
pub const ACTION_SIZE: usize = 3;

/// Tag word of a record that encodes `Action::Idle`.
pub const ACTION_IDLE: u32 = 0;
/// Tag word of a record that encodes `Action::Wait`.
pub const ACTION_WAIT: u32 = 1;
/// Tag word of a record that encodes `Action::Pin`.
pub const ACTION_PIN: u32 = 2;

/// An encoded action: a fixed-size array of unsigned 32-bit words.
pub type ActionRecord = [u32; ACTION_SIZE];

/// A well-formed record: correct width and a recognized tag. Every record the
/// engine itself writes is well-formed; an unrecognized tag can only arise
/// from an engine defect, which verification rules out.
pub open spec fn record_wf(r: Seq<u32>) -> bool {
    &&& r.len() == ACTION_SIZE
    &&& (r[0] == ACTION_IDLE || r[0] == ACTION_WAIT || r[0] == ACTION_PIN)
}

/// The record that encodes an action. Unused payload words are zero.
pub open spec fn encode_spec(a: Action) -> Seq<u32> {
    match a {
        Action::Idle => seq![ACTION_IDLE, 0u32, 0u32],
        Action::Wait { microseconds } => seq![ACTION_WAIT, microseconds, 0u32],
        Action::Pin { on, off } => seq![ACTION_PIN, on, off],
    }
}

/// The action a well-formed record stands for.
pub open spec fn decode_spec(r: Seq<u32>) -> Action {
    if r[0] == ACTION_WAIT {
        Action::Wait { microseconds: r[1] }
    } else if r[0] == ACTION_PIN {
        Action::Pin { on: r[1], off: r[2] }
    } else {
        Action::Idle
    }
}

/// Encoding is total: every action maps to a well-formed record, and decoding
/// that record gives the action back unchanged.
pub proof fn lemma_codec_round_trip(a: Action)
    ensures
        record_wf(encode_spec(a)),
        decode_spec(encode_spec(a)) == a,
{
}

/// Encode an action into a fixed-width record.
pub fn encode(a: Action) -> (r: ActionRecord)
    ensures
        r@ == encode_spec(a),
        record_wf(r@),
{
    let r: ActionRecord = match a {
        Action::Idle => [ACTION_IDLE, 0u32, 0u32],
        Action::Wait { microseconds } => [ACTION_WAIT, microseconds, 0u32],
        Action::Pin { on, off } => [ACTION_PIN, on, off],
    };
    proof {
        assert(r@ =~= encode_spec(a));
    }
    r
}

/// Decode a well-formed record back into the action it encodes.
pub fn decode(r: &ActionRecord) -> (a: Action)
    requires
        record_wf(r@),
    ensures
        a == decode_spec(r@),
{
    let tag = r[0];
    if tag == ACTION_WAIT {
        Action::Wait { microseconds: r[1] }
    } else if tag == ACTION_PIN {
        Action::Pin { on: r[1], off: r[2] }
    } else {
        Action::Idle
    }
}

} // verus!
