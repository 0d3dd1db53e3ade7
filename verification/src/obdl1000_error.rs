//! Error types of the dispenser as read from the parallel error line, where
//! each error is a low pulse whose length is 50 ms per unit of its number.
use vstd::prelude::*;
use crate::obdl1000::error_code::{error_of_pulse, ErrorCode, ParseError as CodeParseError};

verus! {

/// An error of the dispenser, with the nominal length of its parallel pulse.
#[derive(Copy, Clone, Debug, PartialEq, Eq, Structural)]
pub enum ErrorType {
    NoError,
    /// 50 ms
    Empty,
    /// 100 ms
    Jam,
    /// 150 ms
    BillDouble,
    /// 200 ms
    NotEmit,
    /// 250 ms
    LengthLong,
    /// 300 ms
    LengthShort,
    /// 350 ms
    RejOver,
    /// 500 ms
    TakeOut,
    /// 600 ms
    MotorLock,
    /// 700 ms
    Incline,
}

/// Why a number or a pulse length names no error.
#[derive(Copy, Clone, Debug, PartialEq, Eq, Structural)]
pub enum ParseError {
    /// Number 0: a pulse of at most 25 ms.
    UnknownShort,
    /// A number above 14: a pulse of at least 725 ms.
    UnknownLong,
    /// A number between 1 and 14 that belongs to no error.
    UnknownMid,
}

impl ErrorType {
    /// The number of the error; its pulse is this many times 50 ms long.
    pub open spec fn number(self) -> u32 {
        match self {
            ErrorType::NoError => 0,
            ErrorType::Empty => 1,
            ErrorType::Jam => 2,
            ErrorType::BillDouble => 3,
            ErrorType::NotEmit => 4,
            ErrorType::LengthLong => 5,
            ErrorType::LengthShort => 6,
            ErrorType::RejOver => 7,
            ErrorType::TakeOut => 10,
            ErrorType::MotorLock => 12,
            ErrorType::Incline => 14,
        }
    }

    /// The error whose number is `x`, or why there is none.
    pub fn back_to_enum(x: u32) -> (r: Result<ErrorType, ParseError>)
        ensures
            r == error_type_of_number(x),
    {
        match x {
            0 => Err(ParseError::UnknownShort),
            1 => Ok(ErrorType::Empty),
            2 => Ok(ErrorType::Jam),
            3 => Ok(ErrorType::BillDouble),
            4 => Ok(ErrorType::NotEmit),
            5 => Ok(ErrorType::LengthLong),
            6 => Ok(ErrorType::LengthShort),
            7 => Ok(ErrorType::RejOver),
            10 => Ok(ErrorType::TakeOut),
            12 => Ok(ErrorType::MotorLock),
            14 => Ok(ErrorType::Incline),
            _ => if 14 < x {
                Err(ParseError::UnknownLong)
            } else {
                Err(ParseError::UnknownMid)
            },
        }
    }

    /// Decodes a measured pulse length in milliseconds: too long from 725 ms
    /// on, else the error named by `(msec + 24) / 50`.
    pub fn msec_to_enum(msec: u32) -> (r: Result<ErrorType, ParseError>)
        ensures
            r == error_type_of_pulse(msec),
    {
        if msec >= 725 {
            Err(ParseError::UnknownLong)
        } else {
            ErrorType::back_to_enum((msec + 24) / 50)
        }
    }
}

/// What a pulse of `msec` milliseconds is read as.
pub open spec fn error_type_of_pulse(msec: u32) -> Result<ErrorType, ParseError> {
    if msec >= 725 {
        Err(ParseError::UnknownLong)
    } else {
        error_type_of_number(((msec + 24) / 50) as u32)
    }
}

/// The error that a number names, or why it names none.
pub open spec fn error_type_of_number(x: u32) -> Result<ErrorType, ParseError> {
    if x == 0 {
        Err(ParseError::UnknownShort)
    } else if x == 1 {
        Ok(ErrorType::Empty)
    } else if x == 2 {
        Ok(ErrorType::Jam)
    } else if x == 3 {
        Ok(ErrorType::BillDouble)
    } else if x == 4 {
        Ok(ErrorType::NotEmit)
    } else if x == 5 {
        Ok(ErrorType::LengthLong)
    } else if x == 6 {
        Ok(ErrorType::LengthShort)
    } else if x == 7 {
        Ok(ErrorType::RejOver)
    } else if x == 10 {
        Ok(ErrorType::TakeOut)
    } else if x == 12 {
        Ok(ErrorType::MotorLock)
    } else if x == 14 {
        Ok(ErrorType::Incline)
    } else if 14 < x {
        Err(ParseError::UnknownLong)
    } else {
        Err(ParseError::UnknownMid)
    }
}

/// A pulse of the nominal length of an error other than `NoError` (50 ms
/// times its number) is read as that error.
pub proof fn lemma_nominal_pulse_decodes(e: ErrorType)
    requires
        e != ErrorType::NoError,
    ensures
        error_type_of_pulse((50 * e.number()) as u32) == Ok::<ErrorType, ParseError>(e),
{
}

/// A pulse is too short exactly when it lasts at most 25 ms, and too long
/// exactly when it lasts 725 ms or more.
pub proof fn lemma_pulse_out_of_range(msec: u32)
    ensures
        error_type_of_pulse(msec) == Err::<ErrorType, ParseError>(ParseError::UnknownShort) <==> msec <= 25,
        error_type_of_pulse(msec) == Err::<ErrorType, ParseError>(ParseError::UnknownLong) <==> msec >= 725,
{
}

impl ErrorType {
    /// The error of the serial error table with the same name.
    pub open spec fn as_error_code(self) -> ErrorCode {
        match self {
            ErrorType::NoError => ErrorCode::NoError,
            ErrorType::Empty => ErrorCode::Empty,
            ErrorType::Jam => ErrorCode::Jam,
            ErrorType::BillDouble => ErrorCode::BillDouble,
            ErrorType::NotEmit => ErrorCode::NotEmit,
            ErrorType::LengthLong => ErrorCode::LengthLong,
            ErrorType::LengthShort => ErrorCode::LengthShort,
            ErrorType::RejOver => ErrorCode::RejOver,
            ErrorType::TakeOut => ErrorCode::TakeOut,
            ErrorType::MotorLock => ErrorCode::MotorLock,
            ErrorType::Incline => ErrorCode::Incline,
        }
    }
}

/// A pulse is read as the error `e` (other than `NoError`) exactly when its
/// length lies within 24 ms below and 25 ms above the nominal length of `e`
/// (50 ms times its number) and is shorter than 725 ms.
pub proof fn lemma_pulse_window(e: ErrorType, msec: u32)
    ensures
        e != ErrorType::NoError ==> (
            error_type_of_pulse(msec) == Ok::<ErrorType, ParseError>(e)
            <==> 50 * e.number() - 24 <= msec <= 50 * e.number() + 25 && msec < 725),
{
    if e != ErrorType::NoError && msec < 725 {
        let n = e.number();
        let q = ((msec + 24) / 50) as u32;
        assert(error_type_of_pulse(msec) == Ok::<ErrorType, ParseError>(e) <==> q == n);
        assert(q == n <==> 50 * n <= msec + 24 < 50 * n + 50) by (nonlinear_arith)
            requires
                q == (msec + 24) / 50,
                n <= 14;
    }
}

/// The parallel error types and the serial error codes agree: same-named
/// errors have the same number, and every pulse length is read as the same
/// error (or as too short or too long) by both decoders.
pub proof fn lemma_agrees_with_error_code(e: ErrorType, msec: u32)
    ensures
        e.number() == e.as_error_code().number(),
        error_type_of_pulse(msec) == Ok::<ErrorType, ParseError>(e)
            <==> error_of_pulse(msec) == Ok::<ErrorCode, CodeParseError>(e.as_error_code()),
        error_type_of_pulse(msec) == Err::<ErrorType, ParseError>(ParseError::UnknownShort)
            <==> error_of_pulse(msec) == Err::<ErrorCode, CodeParseError>(CodeParseError::UnknownShort),
        error_type_of_pulse(msec) == Err::<ErrorType, ParseError>(ParseError::UnknownLong)
            <==> error_of_pulse(msec) == Err::<ErrorCode, CodeParseError>(CodeParseError::UnknownLong),
        error_type_of_pulse(msec) == Err::<ErrorType, ParseError>(ParseError::UnknownMid)
            <==> error_of_pulse(msec) == Err::<ErrorCode, CodeParseError>(CodeParseError::UnknownMid),
{
}

} // verus!
