//! Nitrokey vendor extension: the GETSTATUS, GETVERSION and GETRNG queries.
//!
//! The queries travel as CTAPHID messages with a vendor command byte and come
//! back as plain byte arrays. This module names the command bytes, builds the
//! request payloads and decodes what the device answered.

use crate::error::CtapError;
use crate::text::{dotted_text, hex_pair, hex_text, push_hex, to_dotted_str, to_hex_str};
use vstd::prelude::*;

verus! {

/// Vendor command byte of the random-number query.
pub const CTAPHID_NITRO_GETRNG: u8 = 0xE0;

/// Vendor command byte of the firmware-version query.
pub const CTAPHID_NITRO_GETVERSION: u8 = 0xE1;

/// Vendor command byte of the button-status query.
pub const CTAPHID_NITRO_GETSTATUS: u8 = 0xF1;

/// Error code of a failure that has no code of the device's own.
pub const ERR_OTHER: u8 = 0x7F;

/// Error code of a reply that is too short for what was asked.
pub const ERR_INVALID_LEN: u8 = 0x03;

/// Number of bytes in a status block.
pub const STATUS_LEN: usize = 8;

/// State of the touch button, as the firmware reports it.
#[derive(Debug, Clone, Copy, PartialEq, Eq, Structural)]
pub enum ButtonStateT {
    /// Waiting for the charge to settle down.
    BstInitializing,
    /// Ready for clearing.
    BstInitializingReadyToClear,
    /// Marker between the states before and after the button is ready.
    BstMetaReadyToUse,
    /// Ready to use.
    BstUnpressed,
    /// Touch registration has started.
    BstPressedRecently,
    /// Touch registered, normal press period.
    BstPressedRegistered,
    /// Touch registered, normal press, timed out.
    BstPressedRegisteredTransitional,
    /// Touch registered, extended press period.
    BstPressedRegisteredExt,
    /// Touch registered, extended press period, invalidated.
    BstPressedRegisteredExtInvalid,
    /// Touch consumed, requests still accepted.
    BstPressedConsumedActive,
    /// Touch consumed, button not yet released, requests refused.
    BstPressedConsumed,
    /// Any state this host does not know.
    BstMaxNum,
}

impl Default for ButtonStateT {
    fn default() -> (r: Self)
        ensures
            r == ButtonStateT::BstInitializing,
    {
        ButtonStateT::BstInitializing
    }
}

impl ButtonStateT {
    /// The state that a status byte stands for. Bytes above 10 have no state
    /// of their own and stand for `BstMaxNum`.
    pub open spec fn of_byte(b: u8) -> ButtonStateT {
        if b == 0 {
            ButtonStateT::BstInitializing
        } else if b == 1 {
            ButtonStateT::BstInitializingReadyToClear
        } else if b == 2 {
            ButtonStateT::BstMetaReadyToUse
        } else if b == 3 {
            ButtonStateT::BstUnpressed
        } else if b == 4 {
            ButtonStateT::BstPressedRecently
        } else if b == 5 {
            ButtonStateT::BstPressedRegistered
        } else if b == 6 {
            ButtonStateT::BstPressedRegisteredTransitional
        } else if b == 7 {
            ButtonStateT::BstPressedRegisteredExt
        } else if b == 8 {
            ButtonStateT::BstPressedRegisteredExtInvalid
        } else if b == 9 {
            ButtonStateT::BstPressedConsumedActive
        } else if b == 10 {
            ButtonStateT::BstPressedConsumed
        } else {
            ButtonStateT::BstMaxNum
        }
    }

    /// Decodes a status byte. Every byte decodes; none is an error.
    pub fn from_byte(b: u8) -> (r: ButtonStateT)
        ensures
            r == Self::of_byte(b),
    {
        match b {
            0 => ButtonStateT::BstInitializing,
            1 => ButtonStateT::BstInitializingReadyToClear,
            2 => ButtonStateT::BstMetaReadyToUse,
            3 => ButtonStateT::BstUnpressed,
            4 => ButtonStateT::BstPressedRecently,
            5 => ButtonStateT::BstPressedRegistered,
            6 => ButtonStateT::BstPressedRegisteredTransitional,
            7 => ButtonStateT::BstPressedRegisteredExt,
            8 => ButtonStateT::BstPressedRegisteredExtInvalid,
            9 => ButtonStateT::BstPressedConsumedActive,
            10 => ButtonStateT::BstPressedConsumed,
            _ => ButtonStateT::BstMaxNum,
        }
    }
}

/// The status block of a Nitrokey, decoded field by field.
#[derive(Debug, Clone, Copy, PartialEq, Eq, Structural)]
pub struct NitrokeyStatus {
    pub is_button_pressed_raw: bool,
    pub button_state: u8,
    pub button_state_t: ButtonStateT,
    pub last_button_cleared_time_delta: u8,
    pub last_button_pushed_time_delta: u8,
    pub led_is_blinking: bool,
    pub u2f_ms_clear_button_period: u8,
    pub u2f_ms_init_button_period: u8,
    pub button_min_press_t_ms: u8,
}

impl Default for NitrokeyStatus {
    fn default() -> (r: Self)
        ensures
            r == NitrokeyStatus::zeroed(),
    {
        NitrokeyStatus {
            is_button_pressed_raw: false,
            button_state: 0,
            button_state_t: ButtonStateT::BstInitializing,
            last_button_cleared_time_delta: 0,
            last_button_pushed_time_delta: 0,
            led_is_blinking: false,
            u2f_ms_clear_button_period: 0,
            u2f_ms_init_button_period: 0,
            button_min_press_t_ms: 0,
        }
    }
}

impl NitrokeyStatus {
    /// The status with every field at its default.
    pub open spec fn zeroed() -> NitrokeyStatus {
        NitrokeyStatus {
            is_button_pressed_raw: false,
            button_state: 0,
            button_state_t: ButtonStateT::BstInitializing,
            last_button_cleared_time_delta: 0,
            last_button_pushed_time_delta: 0,
            led_is_blinking: false,
            u2f_ms_clear_button_period: 0,
            u2f_ms_init_button_period: 0,
            button_min_press_t_ms: 0,
        }
    }

    /// The status that a block of at least eight bytes stands for: one field
    /// per byte, in order. The two flags are set by the byte value 1 only.
    pub open spec fn of_bytes(block: Seq<u8>) -> NitrokeyStatus
        recommends
            block.len() >= STATUS_LEN,
    {
        NitrokeyStatus {
            is_button_pressed_raw: block[0] == 1,
            button_state: block[1],
            button_state_t: ButtonStateT::of_byte(block[1]),
            last_button_cleared_time_delta: block[2],
            last_button_pushed_time_delta: block[3],
            led_is_blinking: block[4] == 1,
            u2f_ms_clear_button_period: block[5],
            u2f_ms_init_button_period: block[6],
            button_min_press_t_ms: block[7],
        }
    }

    /// The status that a reply stands for: none where the reply is shorter
    /// than a status block.
    pub open spec fn decoded(block: Seq<u8>) -> Option<NitrokeyStatus> {
        if block.len() >= STATUS_LEN {
            Some(Self::of_bytes(block))
        } else {
            None
        }
    }

    /// Decodes a status block positionally. A reply that is shorter than a
    /// status block is none; no field is made up for a byte that did not
    /// come.
    pub fn from_bytes(block: &[u8]) -> (r: Option<NitrokeyStatus>)
        ensures
            r == Self::decoded(block@),
    {
        if block.len() < STATUS_LEN {
            return None;
        }
        Some(NitrokeyStatus {
            is_button_pressed_raw: block[0] == 1,
            button_state: block[1],
            button_state_t: ButtonStateT::from_byte(block[1]),
            last_button_cleared_time_delta: block[2],
            last_button_pushed_time_delta: block[3],
            led_is_blinking: block[4] == 1,
            u2f_ms_clear_button_period: block[5],
            u2f_ms_init_button_period: block[6],
            button_min_press_t_ms: block[7],
        })
    }
}

/// The text of a failed vendor query: the query's label, then the device's
/// error code as two hexadecimal digits.
pub open spec fn error_text(label: Seq<char>, code: u8) -> Seq<char> {
    label + " err = 0x"@ + hex_pair(code)
}

fn error_message(label: &str, code: u8) -> (msg: String)
    ensures
        msg@ == error_text(label@, code),
{
    let mut msg = String::from_str(label);
    msg.append(" err = 0x");
    push_hex(&mut msg, code);
    msg
}

/// The outcome of a vendor query as the decoders take it: the payload of
/// the response, or an error code. A status of the device is its own code;
/// any other failure has the code `ERR_OTHER`.
pub open spec fn outcome_of(result: Result<Vec<u8>, CtapError>) -> Result<Vec<u8>, u8> {
    match result {
        Ok(payload) => Ok(payload),
        Err(CtapError::Protocol(code)) => Err(code),
        Err(_) => Err(ERR_OTHER),
    }
}

/// Turns the outcome of a round trip into the outcome of a vendor query.
pub fn query_outcome(result: Result<Vec<u8>, CtapError>) -> (r: Result<Vec<u8>, u8>)
    ensures
        r == outcome_of(result),
{
    match result {
        Ok(payload) => Ok(payload),
        Err(CtapError::Protocol(code)) => Err(code),
        Err(_) => Err(ERR_OTHER),
    }
}

/// Payload of the GETRNG request: the number of random bytes asked for.
pub fn rng_request(rng_byte: u8) -> (payload: Vec<u8>)
    ensures
        payload@ == seq![rng_byte],
{
    let mut payload: Vec<u8> = Vec::new();
    payload.push(rng_byte);
    payload
}

/// Nitrokey custom GETVERSION: turns the outcome of the query into the
/// firmware version, its bytes in decimal and joined by dots.
pub fn get_version(outcome: Result<Vec<u8>, u8>) -> (r: Result<String, String>)
    ensures
        match outcome {
            Ok(bytes) => r matches Ok(v) && v@ == dotted_text(bytes@),
            Err(code) => r matches Err(m) && m@ == error_text("nitrokey::get_version"@, code),
        },
{
    match outcome {
        Ok(bytes) => Ok(to_dotted_str(bytes.as_slice())),
        Err(code) => Err(error_message("nitrokey::get_version", code)),
    }
}

/// Nitrokey custom GETRNG: turns the outcome of the query into the random
/// bytes in hexadecimal.
pub fn get_rng(outcome: Result<Vec<u8>, u8>) -> (r: Result<String, String>)
    ensures
        match outcome {
            Ok(bytes) => r matches Ok(v) && v@ == hex_text(bytes@),
            Err(code) => r matches Err(m) && m@ == error_text("nitrokey::get_rng"@, code),
        },
{
    match outcome {
        Ok(bytes) => Ok(to_hex_str(bytes.as_slice())),
        Err(code) => Err(error_message("nitrokey::get_rng", code)),
    }
}

/// Nitrokey custom GETSTATUS: turns the outcome of the query into the decoded
/// status block. A reply that is shorter than a status block is a failure of
/// the query, with the code `ERR_INVALID_LEN`.
pub fn get_status(outcome: Result<Vec<u8>, u8>) -> (r: Result<NitrokeyStatus, String>)
    ensures
        match outcome {
            Ok(block) => match NitrokeyStatus::decoded(block@) {
                Some(status) => r == Ok::<NitrokeyStatus, String>(status),
                None => r matches Err(m) && m@ == error_text(
                    "nitrokey::get_status"@,
                    ERR_INVALID_LEN,
                ),
            },
            Err(code) => r matches Err(m) && m@ == error_text("nitrokey::get_status"@, code),
        },
{
    match outcome {
        Ok(block) => match NitrokeyStatus::from_bytes(block.as_slice()) {
            Some(status) => Ok(status),
            None => Err(error_message("nitrokey::get_status", ERR_INVALID_LEN)),
        },
        Err(code) => Err(error_message("nitrokey::get_status", code)),
    }
}

} // verus!
