use papout_psm::obdl1000::request::{Error, Request};
use papout_psm::obdl1000::state_code::StateCode;
use papout_psm::obdl1000_serial_request::{Error as SerialError, SerialRequest};
use papout_psm::tasks::uart_frame;

fn framed(a: u8, b: u8, c: u8) -> [u8; 5] {
    [b'$', a, b, c, a.wrapping_add(b).wrapping_add(c)]
}

/// The request table of the dispenser's protocol, lower case then upper case.
const TX_DATA: [[[u8; 3]; 10]; 2] = [
    [
        [b'H', b'I', b'?'],
        [b'i', 0x00, 0x00],
        [b'd', 0xFF, b's'],
        [b'h', 0x00, 0x00],
        [b'h', b'c', b'?'],
        [b'r', b'e', b'm'],
        [b'g', b't', b'?'],
        [b'c', b't', b'c'],
        [b's', 0x00, 0x00],
        [b's', b'e', b'r'],
    ],
    [
        [b'H', b'I', b'?'],
        [b'I', 0x00, 0x00],
        [b'D', 0xFF, b'S'],
        [b'H', 0x00, 0x00],
        [b'H', b'C', b'?'],
        [b'R', b'E', b'M'],
        [b'G', b'T', b'?'],
        [b'C', b'T', b'C'],
        [b'S', 0x00, 0x00],
        [b'S', b'E', b'R'],
    ],
];

const TX_REQUESTS: [Request; 10] = [
    Request::SayHi,
    Request::Init,
    Request::Dispense(0xFF),
    Request::HaltAction,
    Request::HaltActionCancel,
    Request::RemoveCount,
    Request::GetTotalDispensed,
    Request::RemoveTotalCount,
    Request::StateCheck,
    Request::ErrorCheck,
];

#[test]
fn request_table_frames_decode() {
    for case in 0..2 {
        for i in 0..10 {
            let c = TX_DATA[case][i];
            let frame = uart_frame((c[0], c[1], c[2]));
            assert_eq!(Request::from_array(&frame), Ok(TX_REQUESTS[i]));
            assert_eq!(Request::from_core_data((c[0], c[1], c[2])), Ok(TX_REQUESTS[i]));
        }
    }
}

#[test]
fn request_say_hi_frame() {
    assert_eq!(Request::from_array(&[0x24, 0x48, 0x49, 0x3F, 0xD0]), Ok(Request::SayHi));
}

#[test]
fn request_check_byte_wraps() {
    // 'r' + 'e' + 'm' = 324, so the check byte is 68.
    assert_eq!(Request::from_array(&[b'$', b'r', b'e', b'm', 0x44]), Ok(Request::RemoveCount));
    assert_eq!(Request::from_array(&[b'$', b'd', 0xFF, b's', 0xD6]), Ok(Request::Dispense(255)));
}

#[test]
fn request_errors() {
    assert_eq!(Request::from_array(&[b'#', 0x48, 0x49, 0x3F, 0xD0]), Err(Error::WrongStart));
    assert_eq!(Request::from_array(&[b'$', 0x48, 0x49, 0x3F, 0xD1]), Err(Error::WrongHash));
    assert_eq!(Request::from_array(&[b'#', 0x48, 0x49, 0x3F, 0xD1]), Err(Error::WrongStartHash));
    assert_eq!(Request::from_array(&framed(b'X', b'Y', b'Z')), Err(Error::WrongCommand));
    // "hi?" is accepted in upper case only.
    assert_eq!(Request::from_array(&framed(b'h', b'i', b'?')), Err(Error::WrongCommand));
    // Mixed case is not accepted.
    assert_eq!(Request::from_array(&framed(b'R', b'e', b'm')), Err(Error::WrongCommand));
    assert_eq!(Request::from_core_data((b'I', 0x00, 0x01)), Err(Error::WrongCommand));
}

#[test]
fn request_dispense_count() {
    assert_eq!(Request::from_core_data((b'D', 0, b'S')), Ok(Request::Dispense(0)));
    assert_eq!(Request::from_core_data((b'd', 12, b's')), Ok(Request::Dispense(12)));
    assert_eq!(Request::from_core_data((b'D', 12, b's')), Err(Error::WrongCommand));
}

#[test]
fn request_core_data() {
    assert_eq!(Request::Dispense(7).to_core_data(true), [b'D', 7, b'S']);
    assert_eq!(Request::Dispense(7).to_core_data(false), [b'd', 7, b's']);
    assert_eq!(Request::SayHi.to_core_data(true), [b'H', b'I', b'?']);
    assert_eq!(Request::SayHi.to_core_data(false), [b'H', b'I', b'?']);
    assert_eq!(Request::Init.to_core_data(true), [b'I', 0x00, 0x00]);
    assert_eq!(Request::Init.to_core_data(false), [b'i', 0x00, 0x00]);
    assert_eq!(Request::StateCheck.to_core_data(true), [b'S', 0x00, 0x00]);
    assert_eq!(Request::StateCheck.to_core_data(false), [b's', 0x00, 0x00]);
}

#[test]
fn request_core_data_matches_table() {
    for case in 0..2 {
        for i in 0..10 {
            assert_eq!(TX_REQUESTS[i].to_core_data(case == 1), TX_DATA[case][i]);
        }
    }
}

#[test]
fn request_core_data_round_trip() {
    let all = [
        Request::SayHi,
        Request::Init,
        Request::Dispense(0),
        Request::Dispense(0x24),
        Request::Dispense(200),
        Request::HaltAction,
        Request::HaltActionCancel,
        Request::RemoveCount,
        Request::GetTotalDispensed,
        Request::RemoveTotalCount,
        Request::StateCheck,
        Request::ErrorCheck,
    ];
    for r in all.iter() {
        for capital in [true, false] {
            let c = r.to_core_data(capital);
            assert_eq!(Request::from_core_data((c[0], c[1], c[2])), Ok(*r));
        }
    }
}

#[test]
fn request_possibility() {
    assert!(!Request::Dispense(0).action_possibility(&StateCode::Idle));
    assert!(Request::Dispense(3).action_possibility(&StateCode::Idle));
    assert!(Request::Dispense(3).action_possibility(&StateCode::SuccessDispense(2)));
    assert!(!Request::Dispense(3).action_possibility(&StateCode::WhileDispensing));
    assert!(!Request::Dispense(3).action_possibility(&StateCode::ActionHalted));
    assert!(!Request::Dispense(3).action_possibility(&StateCode::ProblemDispense(1)));
    assert!(!Request::HaltAction.action_possibility(&StateCode::ActionHalted));
    assert!(Request::HaltAction.action_possibility(&StateCode::WhileDispensing));
    assert!(!Request::RemoveCount.action_possibility(&StateCode::WhileDispensing));
    assert!(!Request::GetTotalDispensed.action_possibility(&StateCode::WhileDispensing));
    assert!(!Request::RemoveTotalCount.action_possibility(&StateCode::WhileDispensing));
    assert!(Request::RemoveTotalCount.action_possibility(&StateCode::Idle));
    let states = [
        StateCode::Idle,
        StateCode::WhileDispensing,
        StateCode::ActionHalted,
        StateCode::SuccessDispense(1),
        StateCode::ProblemDispense(1),
    ];
    for s in states.iter() {
        assert!(Request::SayHi.action_possibility(s));
        assert!(Request::Init.action_possibility(s));
        assert!(Request::HaltActionCancel.action_possibility(s));
        assert!(Request::StateCheck.action_possibility(s));
        assert!(Request::ErrorCheck.action_possibility(s));
    }
}

#[test]
fn request_fault_answers() {
    let r = Request::Dispense(0).action_response(&StateCode::Idle, true, None);
    assert_eq!(r, (false, Some([b'N', b'S', b'!']), None));
    let r = Request::Dispense(0).action_response(&StateCode::Idle, false, None);
    assert_eq!(r, (false, Some([b'b', b's', b'!']), None));
}

#[test]
fn request_answers() {
    let idle = StateCode::Idle;
    assert_eq!(Request::SayHi.action_response(&idle, true, None), (true, Some([b'M', b'E', b'!']), None));
    assert_eq!(Request::SayHi.action_response(&idle, false, None), (true, Some([b'm', b'e', b'!']), None));
    assert_eq!(Request::Init.action_response(&idle, true, None), (true, Some([b'I', 0x00, b'A']), None));
    assert_eq!(Request::Init.action_response(&idle, false, None), (true, Some([b'i', 0x00, b'A']), None));
    assert_eq!(
        Request::Dispense(5).action_response(&StateCode::SuccessDispense(2), true, None),
        (true, Some([b'D', 5, b'A']), None)
    );
    assert_eq!(Request::HaltAction.action_response(&idle, true, None), (true, Some([b'H', 0x00, b'A']), None));
    assert_eq!(
        Request::HaltActionCancel.action_response(&StateCode::ActionHalted, true, None),
        (true, Some([b'H', b'C', b'!']), None)
    );
    assert_eq!(Request::RemoveCount.action_response(&idle, true, None), (true, Some([b'R', 0xFF, b'O']), None));
    assert_eq!(Request::RemoveCount.action_response(&idle, false, None), (true, Some([b'r', 0xFF, b'o']), None));
    assert_eq!(Request::RemoveTotalCount.action_response(&idle, true, None), (true, Some([b'C', b'T', b'!']), None));
}

#[test]
fn request_state_answer() {
    assert_eq!(
        Request::StateCheck.action_response(&StateCode::Idle, true, Some(7)),
        (true, Some([b'S', b'T', b'B']), None)
    );
    assert_eq!(
        Request::StateCheck.action_response(&StateCode::SuccessDispense(4), false, None),
        (true, Some([b's', 4, b'o']), None)
    );
}

#[test]
fn request_error_answer() {
    assert_eq!(
        Request::ErrorCheck.action_response(&StateCode::Idle, true, Some(0x8C)),
        (true, Some([b'S', b'E', 0x8C]), None)
    );
    assert_eq!(
        Request::ErrorCheck.action_response(&StateCode::Idle, false, None),
        (true, Some([b's', b'e', 0x80]), None)
    );
    assert_eq!(
        Request::ErrorCheck.action_response(&StateCode::Idle, true, Some(0x1_0082)),
        (true, Some([b'S', b'E', 0x82]), None)
    );
}

#[test]
fn request_total_count_answer() {
    let r = Request::GetTotalDispensed.action_response(&StateCode::Idle, true, Some(0x0102_0304));
    assert_eq!(r, (true, Some([b'T', 0x01, 0x02]), Some([b'G', 0x03, 0x04])));
    let (_, first, second) = r;
    let (first, second) = (first.unwrap(), second.unwrap());
    let count = (first[1] as u32) << 24 | (first[2] as u32) << 16 | (second[1] as u32) << 8 | second[2] as u32;
    assert_eq!(count, 0x0102_0304);
    let r = Request::GetTotalDispensed.action_response(&StateCode::Idle, false, None);
    assert_eq!(r, (true, Some([b't', 0x00, 0x00]), Some([b'g', 0x00, 0x00])));
}

#[test]
fn request_total_count_refused_while_dispensing() {
    let r = Request::GetTotalDispensed.action_response(&StateCode::WhileDispensing, true, Some(0xFFFF_FFFF));
    assert_eq!(r, (false, Some([b'N', b'S', b'!']), Some([b'G', 0xFF, 0xFF])));
}

#[test]
fn serial_request_frames() {
    assert_eq!(SerialRequest::from_array(&[0x24, 0x48, 0x49, 0x3F, 0xD0]), Ok(SerialRequest::SayHi));
    assert_eq!(SerialRequest::from_array(&framed(b'd', 4, b's')), Ok(SerialRequest::Dispense(4)));
    assert_eq!(SerialRequest::from_array(&framed(b's', b'e', b'r')), Ok(SerialRequest::ErrorCheck));
    assert_eq!(SerialRequest::from_array(&framed(b'S', 0, 0)), Ok(SerialRequest::StateCheck));
    assert_eq!(SerialRequest::from_array(&framed(b'C', b'T', b'C')), Ok(SerialRequest::RemoveTotalCount));
}

#[test]
fn serial_request_errors() {
    assert_eq!(SerialRequest::from_array(&[b'#', 0x48, 0x49, 0x3F, 0xD0]), Err(SerialError::WrongStart));
    assert_eq!(SerialRequest::from_array(&[b'$', 0x48, 0x49, 0x3F, 0x00]), Err(SerialError::WrongHash));
    assert_eq!(SerialRequest::from_array(&[0x00, 0x48, 0x49, 0x3F, 0x00]), Err(SerialError::WrongStartHash));
    assert_eq!(SerialRequest::from_array(&framed(0, 0, 0)), Err(SerialError::WrongCommand));
}
