//! The status byte that heads every CTAP2 response.

use crate::bytes::copy_range;
use crate::error::{CtapError, DecodeError};
use vstd::prelude::*;

verus! {

/// Status of a command that succeeded.
pub const CTAP2_OK: u8 = 0x00;

/// The part of a response payload after the status byte, where the status
/// says that the command succeeded. A payload without bytes has no status;
/// any other status is the authenticator's error code.
pub open spec fn body_of(payload: Seq<u8>) -> Result<Seq<u8>, CtapError> {
    if payload.len() == 0 {
        Err(CtapError::Decode(DecodeError::Empty))
    } else if payload[0] != CTAP2_OK {
        Err(CtapError::Protocol(payload[0]))
    } else {
        Ok(payload.subrange(1, payload.len() as int))
    }
}

/// Takes the status byte off a response payload.
pub fn response_body(payload: &[u8]) -> (r: Result<Vec<u8>, CtapError>)
    ensures
        match body_of(payload@) {
            Ok(body) => r matches Ok(out) && out@ == body,
            Err(e) => r matches Err(x) && x == e,
        },
{
    if payload.len() == 0 {
        return Err(CtapError::Decode(DecodeError::Empty));
    }
    if payload[0] != CTAP2_OK {
        return Err(CtapError::Protocol(payload[0]));
    }
    Ok(copy_range(payload, 1, payload.len()))
}

} // verus!
