//! The inbound call surface: one externally invocable operation, selected by
//! the four leading bytes of the call data, taking a single length-bounded
//! byte-sequence argument (the raw attested message).

use vstd::prelude::*;
use crate::abi::{decode_bytes_return, spec_decode_bytes_return};
use crate::bytes::{be_val, copy_range, read_be_u32};
use crate::errors::{Failure, FailureV};

verus! {

/// Selector of the one recognized operation: transfer of a bridged token,
/// "wormholeTransferERC20(bytes)".
pub const WORMHOLE_TRANSFER_ERC20_SELECTOR: u32 = 0xb68ac714;

/// What accepting an inbound call must yield: the raw message argument, or
/// the failure that rejects the call data.  Call data shorter than four
/// bytes has no selector; an unrecognized selector fails rather than falling
/// through; and the argument must be a well-formed, length-bounded byte
/// sequence.
pub open spec fn spec_accept_call(s: Seq<u8>) -> Result<Seq<u8>, FailureV> {
    if s.len() < 4 {
        Err(FailureV::SelectorTooShort)
    } else if be_val(s.subrange(0, 4)) != WORMHOLE_TRANSFER_ERC20_SELECTOR {
        Err(FailureV::UnknownSelector)
    } else {
        match spec_decode_bytes_return(s.skip(4)) {
            Some(message) => Ok(message),
            None => Err(FailureV::MalformedCallData),
        }
    }
}

/// Accepts an inbound call: checks the selector and decodes the raw message
/// argument.
pub fn accept_call(calldata: &Vec<u8>) -> (r: Result<Vec<u8>, Failure>)
    ensures
        match r {
            Ok(message) => spec_accept_call(calldata@) == Ok::<Seq<u8>, FailureV>(message@),
            Err(f) => spec_accept_call(calldata@) == Err::<Seq<u8>, FailureV>(f@),
        },
{
    let n: usize = calldata.len();
    if n < 4 {
        return Err(Failure::SelectorTooShort);
    }
    let selector: u32 = read_be_u32(calldata, 0);
    if selector != WORMHOLE_TRANSFER_ERC20_SELECTOR {
        return Err(Failure::UnknownSelector);
    }
    let arguments: Vec<u8> = copy_range(calldata, 4, n);
    proof {
        assert(arguments@ =~= calldata@.skip(4));
    }
    match decode_bytes_return(&arguments) {
        Some(message) => Ok(message),
        None => Err(Failure::MalformedCallData),
    }
}

} // verus!
