//! The fixed output slot of a computation, and the status byte of a call.

use crate::error::{spec_status, Error, SUCCESS};
use vstd::prelude::*;

verus! {

/// The length of the output slot.
pub const OUTPUT_LENGTH: usize = 32;

/// What the slot holds once a result is written to it. A result of 32 bytes
/// fills the slot as it is. Of a longer result the first 32 bytes are kept.
/// A shorter result is padded on the left: zero bytes come first, and the
/// result ends the slot.
pub open spec fn fitted(bytes: Seq<u8>) -> Seq<u8> {
    if bytes.len() >= 32 {
        bytes.take(32)
    } else {
        Seq::new((32 - bytes.len()) as nat, |i: int| 0u8) + bytes
    }
}

/// Writes a result to the slot, cut or padded to its length.
pub fn write_output(ret: &mut [u8; 32], bytes: &[u8])
    ensures
        final(ret)@ == fitted(bytes@),
{
    let len = bytes.len();
    let pad: usize = if len >= 32 {
        0
    } else {
        32 - len
    };
    for i in 0..32usize
        invariant
            len == bytes@.len(),
            pad == if len >= 32 {
                0
            } else {
                32 - len
            },
            forall|j: int| 0 <= j < i ==> ret[j] == fitted(bytes@)[j],
    {
        if i < pad {
            ret[i] = 0;
        } else {
            ret[i] = bytes[i - pad];
        }
    }
    assert(ret@ =~= fitted(bytes@));
}

/// The status byte of an outcome: 0 for success, else the code of the error.
pub fn status<T>(outcome: &Result<T, Error>) -> (code: u8)
    ensures
        code == spec_status(*outcome),
        code == SUCCESS <==> outcome is Ok,
{
    match outcome {
        Ok(_) => SUCCESS,
        Err(e) => e.code(),
    }
}

/// A price as a 64-bit number: the price itself where it fits, else the
/// largest 64-bit number.
pub open spec fn capped(price: nat) -> u64 {
    if price <= u64::MAX {
        price as u64
    } else {
        u64::MAX
    }
}

/// The price that is reported: the price where there is one, and 0 where the
/// call data did not decode.
pub fn price_or_zero(price: Result<u64, Error>) -> (gas: u64)
    ensures
        gas == (match price {
            Ok(gas) => gas,
            Err(_) => 0,
        }),
{
    match price {
        Ok(gas) => gas,
        Err(_) => 0,
    }
}

} // verus!
