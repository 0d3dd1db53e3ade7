//! Dispenser error codes: their serial answer byte, their parallel pulse
//! length, and the decoding of a measured pulse length.
use vstd::prelude::*;
use crate::obdl1000::caparr::{cap_spec, caparr_ttd};

verus! {

/// An error reported by the dispenser. On the parallel line each error is a
/// low pulse of 50 ms per unit of its number; on the serial line it is the
/// byte `0x80` plus its number.
#[derive(Copy, Clone, Debug, PartialEq, Eq, Structural)]
pub enum ErrorCode {
    NoError,
    Empty,
    Jam,
    BillDouble,
    NotEmit,
    LengthLong,
    LengthShort,
    RejOver,
    TakeOut,
    MotorLock,
    Incline,
}

/// Why a measured number or pulse length names no error.
#[derive(Copy, Clone, Debug, PartialEq, Eq, Structural)]
pub enum ParseError {
    /// Number 0: a pulse of at most 25 ms.
    UnknownShort,
    /// A number above 14: a pulse of at least 725 ms.
    UnknownLong,
    /// A number between 1 and 14 that belongs to no error.
    UnknownMid,
}

impl ErrorCode {
    /// The number of the error: 0 for `NoError`, 1 to 7 for `Empty` to `RejOver`,
    /// then 10, 12 and 14.
    pub open spec fn number(self) -> u32 {
        match self {
            ErrorCode::NoError => 0,
            ErrorCode::Empty => 1,
            ErrorCode::Jam => 2,
            ErrorCode::BillDouble => 3,
            ErrorCode::NotEmit => 4,
            ErrorCode::LengthLong => 5,
            ErrorCode::LengthShort => 6,
            ErrorCode::RejOver => 7,
            ErrorCode::TakeOut => 10,
            ErrorCode::MotorLock => 12,
            ErrorCode::Incline => 14,
        }
    }

    /// The serial answer byte of the error.
    pub open spec fn serial_code(self) -> u8 {
        (0x80 + self.number()) as u8
    }

    /// The length in milliseconds of the parallel pulse of the error.
    pub open spec fn parallel_time(self) -> u32 {
        (50 * self.number()) as u32
    }

    fn number_u8(&self) -> (r: u8)
        ensures
            r == self.number(),
    {
        match self {
            ErrorCode::NoError => 0,
            ErrorCode::Empty => 1,
            ErrorCode::Jam => 2,
            ErrorCode::BillDouble => 3,
            ErrorCode::NotEmit => 4,
            ErrorCode::LengthLong => 5,
            ErrorCode::LengthShort => 6,
            ErrorCode::RejOver => 7,
            ErrorCode::TakeOut => 10,
            ErrorCode::MotorLock => 12,
            ErrorCode::Incline => 14,
        }
    }

    /// The error whose number is `x`, or why there is none.
    pub fn back_to_enum(x: u32) -> (r: Result<ErrorCode, ParseError>)
        ensures
            r == error_of_number(x),
    {
        match x {
            0 => Err(ParseError::UnknownShort),
            1 => Ok(ErrorCode::Empty),
            2 => Ok(ErrorCode::Jam),
            3 => Ok(ErrorCode::BillDouble),
            4 => Ok(ErrorCode::NotEmit),
            5 => Ok(ErrorCode::LengthLong),
            6 => Ok(ErrorCode::LengthShort),
            7 => Ok(ErrorCode::RejOver),
            10 => Ok(ErrorCode::TakeOut),
            12 => Ok(ErrorCode::MotorLock),
            14 => Ok(ErrorCode::Incline),
            _ => if 14 < x {
                Err(ParseError::UnknownLong)
            } else {
                Err(ParseError::UnknownMid)
            },
        }
    }

    /// Decodes a measured parallel pulse length in milliseconds. A pulse of
    /// 725 ms or more is too long; a shorter one is rounded to the nearest
    /// multiple of 50 ms (a remainder of 26 ms or more rounds up) and the
    /// quotient is decoded as a number.
    pub fn msec_to_enum(msec: u32) -> (r: Result<ErrorCode, ParseError>)
        ensures
            r == error_of_pulse(msec),
    {
        if msec >= 725 {
            Err(ParseError::UnknownLong)
        } else {
            ErrorCode::back_to_enum((msec + 24) / 50)
        }
    }

    /// The serial answer byte: `0x80` plus the error's number.
    pub fn to_serial_code(&self) -> (r: u8)
        ensures
            r == self.serial_code(),
            r == 0x80 + self.number(),
    {
        0x80 + self.number_u8()
    }

    /// The core data of the error answer: `S` and `E` in the requested case,
    /// and the serial code.
    pub fn to_serial_core_data(&self, capital: bool) -> (r: [u8; 3])
        ensures
            r@ == seq![cap_spec(0x73u8, capital), cap_spec(0x65u8, capital), self.serial_code()],
    {
        // 's', 'e'
        caparr_ttd(0x73, 0x65, self.to_serial_code(), capital)
    }

    /// The length of the parallel pulse: 50 ms per unit of the error's number.
    pub fn to_parallel_time(&self) -> (r: u32)
        ensures
            r == self.parallel_time(),
            r == 50 * self.number(),
    {
        50 * (self.number_u8() as u32)
    }
}

/// The error that a number names, or why it names none.
pub open spec fn error_of_number(x: u32) -> Result<ErrorCode, ParseError> {
    if x == 0 {
        Err(ParseError::UnknownShort)
    } else if x == 1 {
        Ok(ErrorCode::Empty)
    } else if x == 2 {
        Ok(ErrorCode::Jam)
    } else if x == 3 {
        Ok(ErrorCode::BillDouble)
    } else if x == 4 {
        Ok(ErrorCode::NotEmit)
    } else if x == 5 {
        Ok(ErrorCode::LengthLong)
    } else if x == 6 {
        Ok(ErrorCode::LengthShort)
    } else if x == 7 {
        Ok(ErrorCode::RejOver)
    } else if x == 10 {
        Ok(ErrorCode::TakeOut)
    } else if x == 12 {
        Ok(ErrorCode::MotorLock)
    } else if x == 14 {
        Ok(ErrorCode::Incline)
    } else if 14 < x {
        Err(ParseError::UnknownLong)
    } else {
        Err(ParseError::UnknownMid)
    }
}

/// What a pulse of `msec` milliseconds is read as: too long from 725 ms on,
/// else the error named by `(msec + 24) / 50`.
pub open spec fn error_of_pulse(msec: u32) -> Result<ErrorCode, ParseError> {
    if msec >= 725 {
        Err(ParseError::UnknownLong)
    } else {
        error_of_number(((msec + 24) / 50) as u32)
    }
}

/// Each error other than `NoError` is named by its own number.
pub proof fn lemma_number_names_error(e: ErrorCode)
    requires
        e != ErrorCode::NoError,
    ensures
        error_of_number(e.number()) == Ok::<ErrorCode, ParseError>(e),
{
}

/// Two errors with the same serial answer byte are the same error.
pub proof fn lemma_serial_code_unique(a: ErrorCode, b: ErrorCode)
    requires
        a.serial_code() == b.serial_code(),
    ensures
        a == b,
{
}

/// A pulse is read as the error `e` (other than `NoError`) exactly when its
/// length lies within 24 ms below and 25 ms above the nominal length of `e`
/// and is shorter than 725 ms.
pub proof fn lemma_pulse_window(e: ErrorCode, msec: u32)
    ensures
        e != ErrorCode::NoError ==> (
            error_of_pulse(msec) == Ok::<ErrorCode, ParseError>(e)
            <==> e.parallel_time() - 24 <= msec <= e.parallel_time() + 25 && msec < 725),
{
    if e != ErrorCode::NoError && msec < 725 {
        let n = e.number();
        let q = ((msec + 24) / 50) as u32;
        assert(error_of_pulse(msec) == Ok::<ErrorCode, ParseError>(e) <==> q == n);
        assert(q == n <==> 50 * n <= msec + 24 < 50 * n + 50) by (nonlinear_arith)
            requires
                q == (msec + 24) / 50,
                n <= 14;
    }
}

/// The nominal pulse of each error other than `NoError` is read back as that
/// error.
pub proof fn lemma_parallel_time_round_trip(e: ErrorCode)
    requires
        e != ErrorCode::NoError,
    ensures
        error_of_pulse(e.parallel_time()) == Ok::<ErrorCode, ParseError>(e),
{
    lemma_pulse_window(e, e.parallel_time());
}

/// A pulse is too short exactly when it lasts at most 25 ms, and too long
/// exactly when it lasts 725 ms or more.
pub proof fn lemma_pulse_out_of_range(msec: u32)
    ensures
        error_of_pulse(msec) == Err::<ErrorCode, ParseError>(ParseError::UnknownShort) <==> msec <= 25,
        error_of_pulse(msec) == Err::<ErrorCode, ParseError>(ParseError::UnknownLong) <==> msec >= 725,
{
}

} // verus!
