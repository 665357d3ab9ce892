//! Boolean storage encoding.
//!
//! Boolean fields are persisted as integers. Writes are strict: a boolean
//! encodes to exactly 0 or 1. Reads are tolerant: 0 decodes to false and any
//! other value decodes to true. The asymmetry is deliberate, so that legacy
//! rows holding other nonzero values still decode.

use vstd::prelude::*;

verus! {

/// The integer a boolean is stored as: true is 1, false is 0.
pub open spec fn encode_bool(b: bool) -> int {
    if b {
        1
    } else {
        0
    }
}

/// The boolean a stored integer decodes to: 0 is false, anything else true.
pub open spec fn decode_bool(i: int) -> bool {
    i != 0
}

/// Encode a boolean for storage. Total; always returns 0 or 1.
pub fn bool_to_int(b: bool) -> (r: i32)
    ensures
        r as int == encode_bool(b),
{
    if b {
        1
    } else {
        0
    }
}

/// Decode a stored integer tolerantly. Total.
pub fn int_to_bool(i: i32) -> (r: bool)
    ensures
        r == decode_bool(i as int),
{
    i != 0
}

/// Law: decoding an encoded boolean gives the boolean back, for both values.
pub proof fn lemma_bool_round_trip(b: bool)
    ensures
        decode_bool(encode_bool(b)) == b,
{
}

} // verus!
