use ctap_hid_fido2::error::{CtapError, DecodeError, FramingError};
use ctap_hid_fido2::nitrokey::{
    get_rng, get_status, get_version, query_outcome, rng_request, ButtonStateT, NitrokeyStatus,
    CTAPHID_NITRO_GETRNG, CTAPHID_NITRO_GETSTATUS, CTAPHID_NITRO_GETVERSION,
};

#[test]
fn status_byte_ten_is_pressed_consumed() {
    assert_eq!(ButtonStateT::from_byte(10), ButtonStateT::BstPressedConsumed);
}

#[test]
fn status_byte_out_of_range_is_max_num() {
    assert_eq!(ButtonStateT::from_byte(99), ButtonStateT::BstMaxNum);
    assert_eq!(ButtonStateT::from_byte(11), ButtonStateT::BstMaxNum);
    assert_eq!(ButtonStateT::from_byte(255), ButtonStateT::BstMaxNum);
}

#[test]
fn status_block_is_decoded_by_position() {
    let status = get_status(Ok(vec![1, 5, 20, 30, 1, 40, 50, 60])).unwrap();
    assert_eq!(
        status,
        NitrokeyStatus {
            is_button_pressed_raw: true,
            button_state: 5,
            button_state_t: ButtonStateT::BstPressedRegistered,
            last_button_cleared_time_delta: 20,
            last_button_pushed_time_delta: 30,
            led_is_blinking: true,
            u2f_ms_clear_button_period: 40,
            u2f_ms_init_button_period: 50,
            button_min_press_t_ms: 60,
        }
    );
}

#[test]
fn status_flags_are_set_by_one_only() {
    let status = get_status(Ok(vec![2, 99, 0, 0, 0, 0, 0, 0])).unwrap();
    assert!(!status.is_button_pressed_raw);
    assert!(!status.led_is_blinking);
    assert_eq!(status.button_state, 99);
    assert_eq!(status.button_state_t, ButtonStateT::BstMaxNum);
}

#[test]
fn status_error_is_rendered_in_hex() {
    assert_eq!(
        get_status(Err(0x2b)).unwrap_err(),
        "nitrokey::get_status err = 0x2B"
    );
}

#[test]
fn version_is_dotted_decimal() {
    assert_eq!(get_version(Ok(vec![2, 0, 10, 255])).unwrap(), "2.0.10.255");
    assert_eq!(get_version(Ok(vec![100])).unwrap(), "100");
    assert_eq!(get_version(Ok(vec![])).unwrap(), "");
    assert_eq!(
        get_version(Err(1)).unwrap_err(),
        "nitrokey::get_version err = 0x01"
    );
}

#[test]
fn rng_is_upper_case_hex() {
    assert_eq!(get_rng(Ok(vec![0x00, 0xab, 0x7f, 0xff])).unwrap(), "00AB7FFF");
    assert_eq!(
        get_rng(Err(0xff)).unwrap_err(),
        "nitrokey::get_rng err = 0xFF"
    );
}

#[test]
fn every_status_byte_decodes() {
    let named = [
        ButtonStateT::BstInitializing,
        ButtonStateT::BstInitializingReadyToClear,
        ButtonStateT::BstMetaReadyToUse,
        ButtonStateT::BstUnpressed,
        ButtonStateT::BstPressedRecently,
        ButtonStateT::BstPressedRegistered,
        ButtonStateT::BstPressedRegisteredTransitional,
        ButtonStateT::BstPressedRegisteredExt,
        ButtonStateT::BstPressedRegisteredExtInvalid,
        ButtonStateT::BstPressedConsumedActive,
        ButtonStateT::BstPressedConsumed,
    ];
    for b in 0..=255u8 {
        let expected = if (b as usize) < named.len() {
            named[b as usize]
        } else {
            ButtonStateT::BstMaxNum
        };
        assert_eq!(ButtonStateT::from_byte(b), expected);
        let status = get_status(Ok(vec![0, b, 0, 0, 0, 0, 0, 0])).unwrap();
        assert_eq!(status.button_state, b);
        assert_eq!(status.button_state_t, expected);
    }
}

#[test]
fn status_defaults() {
    assert_eq!(ButtonStateT::default(), ButtonStateT::BstInitializing);
    assert_eq!(
        NitrokeyStatus::default(),
        NitrokeyStatus {
            is_button_pressed_raw: false,
            button_state: 0,
            button_state_t: ButtonStateT::BstInitializing,
            last_button_cleared_time_delta: 0,
            last_button_pushed_time_delta: 0,
            led_is_blinking: false,
            u2f_ms_clear_button_period: 0,
            u2f_ms_init_button_period: 0,
            button_min_press_t_ms: 0,
        }
    );
}

#[test]
fn status_block_may_be_longer_than_eight_bytes() {
    let status = NitrokeyStatus::from_bytes(&[0, 3, 1, 2, 0, 4, 5, 6, 7, 8]).unwrap();
    assert_eq!(status.button_state_t, ButtonStateT::BstUnpressed);
    assert_eq!(status.button_min_press_t_ms, 6);
}

#[test]
fn vendor_queries_have_their_command_bytes() {
    assert_eq!(CTAPHID_NITRO_GETRNG, 0x80 | 0x60);
    assert_eq!(CTAPHID_NITRO_GETVERSION, 0x80 | 0x61);
    assert_eq!(CTAPHID_NITRO_GETSTATUS, 0x80 | 0x71);
    assert_eq!(rng_request(32), vec![32]);
}

#[test]
fn query_outcome_keeps_the_code_of_the_device() {
    assert_eq!(query_outcome(Ok(vec![1, 2])), Ok(vec![1, 2]));
    assert_eq!(query_outcome(Err(CtapError::Protocol(0x01))), Err(0x01));
    assert_eq!(query_outcome(Err(CtapError::Transport)), Err(0x7f));
    assert_eq!(
        query_outcome(Err(CtapError::Framing(FramingError::NonceMismatch))),
        Err(0x7f)
    );
    assert_eq!(
        query_outcome(Err(CtapError::Decode(DecodeError::Empty))),
        Err(0x7f)
    );
    assert_eq!(
        get_version(query_outcome(Err(CtapError::Transport))).unwrap_err(),
        "nitrokey::get_version err = 0x7F"
    );
}

#[test]
fn short_status_reply_is_an_error() {
    for len in 0..8usize {
        let block: Vec<u8> = (0..len as u8).map(|b| b + 1).collect();
        assert_eq!(NitrokeyStatus::from_bytes(&block), None);
        assert_eq!(
            get_status(Ok(block)).unwrap_err(),
            "nitrokey::get_status err = 0x03"
        );
    }
    assert_eq!(
        get_status(Ok(vec![1, 3])).unwrap_err(),
        "nitrokey::get_status err = 0x03"
    );
    assert!(get_status(Ok(vec![0; 8])).is_ok());
}
