use papout_psm::obdl1000::error_code::{ErrorCode, ParseError};
use papout_psm::obdl1000_error::{ErrorType, ParseError as TypeParseError};

const ALL_CODES: [ErrorCode; 11] = [
    ErrorCode::NoError,
    ErrorCode::Empty,
    ErrorCode::Jam,
    ErrorCode::BillDouble,
    ErrorCode::NotEmit,
    ErrorCode::LengthLong,
    ErrorCode::LengthShort,
    ErrorCode::RejOver,
    ErrorCode::TakeOut,
    ErrorCode::MotorLock,
    ErrorCode::Incline,
];

#[test]
fn error_code_numbers_decode() {
    assert_eq!(ErrorCode::back_to_enum(0), Err(ParseError::UnknownShort));
    assert_eq!(ErrorCode::back_to_enum(1), Ok(ErrorCode::Empty));
    assert_eq!(ErrorCode::back_to_enum(2), Ok(ErrorCode::Jam));
    assert_eq!(ErrorCode::back_to_enum(3), Ok(ErrorCode::BillDouble));
    assert_eq!(ErrorCode::back_to_enum(4), Ok(ErrorCode::NotEmit));
    assert_eq!(ErrorCode::back_to_enum(5), Ok(ErrorCode::LengthLong));
    assert_eq!(ErrorCode::back_to_enum(6), Ok(ErrorCode::LengthShort));
    assert_eq!(ErrorCode::back_to_enum(7), Ok(ErrorCode::RejOver));
    assert_eq!(ErrorCode::back_to_enum(10), Ok(ErrorCode::TakeOut));
    assert_eq!(ErrorCode::back_to_enum(12), Ok(ErrorCode::MotorLock));
    assert_eq!(ErrorCode::back_to_enum(14), Ok(ErrorCode::Incline));
}

#[test]
fn error_code_unknown_numbers() {
    assert_eq!(ErrorCode::back_to_enum(8), Err(ParseError::UnknownMid));
    assert_eq!(ErrorCode::back_to_enum(9), Err(ParseError::UnknownMid));
    assert_eq!(ErrorCode::back_to_enum(11), Err(ParseError::UnknownMid));
    assert_eq!(ErrorCode::back_to_enum(13), Err(ParseError::UnknownMid));
    assert_eq!(ErrorCode::back_to_enum(15), Err(ParseError::UnknownLong));
    assert_eq!(ErrorCode::back_to_enum(u32::MAX), Err(ParseError::UnknownLong));
}

#[test]
fn error_code_pulse_windows() {
    assert_eq!(ErrorCode::msec_to_enum(0), Err(ParseError::UnknownShort));
    assert_eq!(ErrorCode::msec_to_enum(25), Err(ParseError::UnknownShort));
    assert_eq!(ErrorCode::msec_to_enum(26), Ok(ErrorCode::Empty));
    assert_eq!(ErrorCode::msec_to_enum(50), Ok(ErrorCode::Empty));
    assert_eq!(ErrorCode::msec_to_enum(75), Ok(ErrorCode::Empty));
    assert_eq!(ErrorCode::msec_to_enum(76), Ok(ErrorCode::Jam));
    assert_eq!(ErrorCode::msec_to_enum(400), Err(ParseError::UnknownMid));
    assert_eq!(ErrorCode::msec_to_enum(700), Ok(ErrorCode::Incline));
    assert_eq!(ErrorCode::msec_to_enum(724), Ok(ErrorCode::Incline));
    assert_eq!(ErrorCode::msec_to_enum(725), Err(ParseError::UnknownLong));
    assert_eq!(ErrorCode::msec_to_enum(726), Err(ParseError::UnknownLong));
    assert_eq!(ErrorCode::msec_to_enum(u32::MAX - 24), Err(ParseError::UnknownLong));
}

#[test]
fn error_code_longest_pulse_is_too_long() {
    assert_eq!(ErrorCode::msec_to_enum(u32::MAX), Err(ParseError::UnknownLong));
}

#[test]
fn error_code_serial_codes() {
    assert_eq!(ErrorCode::NoError.to_serial_code(), 0x80);
    assert_eq!(ErrorCode::Empty.to_serial_code(), 0x81);
    assert_eq!(ErrorCode::RejOver.to_serial_code(), 0x87);
    assert_eq!(ErrorCode::TakeOut.to_serial_code(), 0x8A);
    assert_eq!(ErrorCode::MotorLock.to_serial_code(), 0x8C);
    assert_eq!(ErrorCode::Incline.to_serial_code(), 0x8E);
}

#[test]
fn error_code_serial_codes_distinct() {
    for a in ALL_CODES.iter() {
        for b in ALL_CODES.iter() {
            if a != b {
                assert_ne!(a.to_serial_code(), b.to_serial_code());
            }
        }
    }
}

#[test]
fn error_code_parallel_times() {
    assert_eq!(ErrorCode::NoError.to_parallel_time(), 0);
    assert_eq!(ErrorCode::Empty.to_parallel_time(), 50);
    assert_eq!(ErrorCode::RejOver.to_parallel_time(), 350);
    assert_eq!(ErrorCode::TakeOut.to_parallel_time(), 500);
    assert_eq!(ErrorCode::MotorLock.to_parallel_time(), 600);
    assert_eq!(ErrorCode::Incline.to_parallel_time(), 700);
}

#[test]
fn error_code_parallel_time_round_trip() {
    for e in ALL_CODES.iter() {
        if *e != ErrorCode::NoError {
            let t = e.to_parallel_time();
            assert_eq!(ErrorCode::msec_to_enum(t), Ok(*e));
            assert_eq!(ErrorCode::msec_to_enum(t - 24), Ok(*e));
            if t + 25 < 725 {
                assert_eq!(ErrorCode::msec_to_enum(t + 25), Ok(*e));
            }
            assert_ne!(ErrorCode::msec_to_enum(t - 25), Ok(*e));
            assert_ne!(ErrorCode::msec_to_enum(t + 26), Ok(*e));
        }
    }
    assert_eq!(ErrorCode::msec_to_enum(ErrorCode::NoError.to_parallel_time()), Err(ParseError::UnknownShort));
}

#[test]
fn error_code_serial_core_data() {
    assert_eq!(ErrorCode::MotorLock.to_serial_core_data(true), [b'S', b'E', 0x8C]);
    assert_eq!(ErrorCode::Jam.to_serial_core_data(false), [b's', b'e', 0x82]);
    assert_eq!(ErrorCode::NoError.to_serial_core_data(true), [b'S', b'E', 0x80]);
}

#[test]
fn error_type_numbers_decode() {
    assert_eq!(ErrorType::back_to_enum(0), Err(TypeParseError::UnknownShort));
    assert_eq!(ErrorType::back_to_enum(1), Ok(ErrorType::Empty));
    assert_eq!(ErrorType::back_to_enum(7), Ok(ErrorType::RejOver));
    assert_eq!(ErrorType::back_to_enum(10), Ok(ErrorType::TakeOut));
    assert_eq!(ErrorType::back_to_enum(12), Ok(ErrorType::MotorLock));
    assert_eq!(ErrorType::back_to_enum(14), Ok(ErrorType::Incline));
    assert_eq!(ErrorType::back_to_enum(13), Err(TypeParseError::UnknownMid));
    assert_eq!(ErrorType::back_to_enum(100), Err(TypeParseError::UnknownLong));
}

#[test]
fn error_type_nominal_pulses() {
    assert_eq!(ErrorType::msec_to_enum(50), Ok(ErrorType::Empty));
    assert_eq!(ErrorType::msec_to_enum(100), Ok(ErrorType::Jam));
    assert_eq!(ErrorType::msec_to_enum(150), Ok(ErrorType::BillDouble));
    assert_eq!(ErrorType::msec_to_enum(200), Ok(ErrorType::NotEmit));
    assert_eq!(ErrorType::msec_to_enum(250), Ok(ErrorType::LengthLong));
    assert_eq!(ErrorType::msec_to_enum(300), Ok(ErrorType::LengthShort));
    assert_eq!(ErrorType::msec_to_enum(350), Ok(ErrorType::RejOver));
    assert_eq!(ErrorType::msec_to_enum(500), Ok(ErrorType::TakeOut));
    assert_eq!(ErrorType::msec_to_enum(600), Ok(ErrorType::MotorLock));
    assert_eq!(ErrorType::msec_to_enum(700), Ok(ErrorType::Incline));
}

#[test]
fn error_type_pulse_edges() {
    assert_eq!(ErrorType::msec_to_enum(25), Err(TypeParseError::UnknownShort));
    assert_eq!(ErrorType::msec_to_enum(26), Ok(ErrorType::Empty));
    assert_eq!(ErrorType::msec_to_enum(724), Ok(ErrorType::Incline));
    assert_eq!(ErrorType::msec_to_enum(725), Err(TypeParseError::UnknownLong));
    assert_eq!(ErrorType::msec_to_enum(u32::MAX), Err(TypeParseError::UnknownLong));
}
