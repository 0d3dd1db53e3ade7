//! Decoding of the five-byte request frames received on the serial line:
//! `$`, three bytes of core data, and a check byte that is the sum of the
//! core data bytes modulo 256.
use vstd::prelude::*;
use crate::obdl1000::request::{frame_hash, request_of_core, request_of_frame, Error as RequestError, Request};

verus! {

/// A request received from the host.
#[derive(Copy, Clone, Debug, PartialEq, Eq, Structural)]
pub enum SerialRequest {
    SayHi,
    Init,
    /// Dispense the given number of sheets.
    Dispense(u8),
    HaltAction,
    HaltActionCancel,
    RemoveCount,
    GetTotalDispensed,
    RemoveTotalCount,
    StateCheck,
    ErrorCheck,
}

/// Why a received frame is not a request.
#[derive(Copy, Clone, Debug, PartialEq, Eq, Structural)]
pub enum Error {
    /// Start byte and check byte are right, the core data names no request.
    WrongCommand,
    /// The check byte is right, the start byte is not `$`.
    WrongStart,
    /// The start byte is `$`, the check byte is wrong.
    WrongHash,
    /// Both the start byte and the check byte are wrong.
    WrongStartHash,
    WrongUnknown,
}

/// The check byte of three core data bytes: their sum modulo 256.
pub open spec fn check_byte(a: u8, b: u8, c: u8) -> u8 {
    ((a + b + c) % 256) as u8
}

/// The request that three core data bytes name. Most requests are accepted in
/// upper case and in lower case; `HI?` only in upper case.
pub open spec fn serial_request_of_core(core: (u8, u8, u8)) -> Result<SerialRequest, Error> {
    match core {
        // "HI?"
        (0x48, 0x49, 0x3F) => Ok(SerialRequest::SayHi),
        // 'I' or 'i', 0, 0
        (0x49, 0x00, 0x00) | (0x69, 0x00, 0x00) => Ok(SerialRequest::Init),
        // 'D', n, 'S' or 'd', n, 's'
        (0x44, _, 0x53) | (0x64, _, 0x73) => Ok(SerialRequest::Dispense(core.1)),
        // 'H' or 'h', 0, 0
        (0x48, 0x00, 0x00) | (0x68, 0x00, 0x00) => Ok(SerialRequest::HaltAction),
        // "HC?" or "hc?"
        (0x48, 0x43, 0x3F) | (0x68, 0x63, 0x3F) => Ok(SerialRequest::HaltActionCancel),
        // "REM" or "rem"
        (0x52, 0x45, 0x4D) | (0x72, 0x65, 0x6D) => Ok(SerialRequest::RemoveCount),
        // "GT?" or "gt?"
        (0x47, 0x54, 0x3F) | (0x67, 0x74, 0x3F) => Ok(SerialRequest::GetTotalDispensed),
        // "CTC" or "ctc"
        (0x43, 0x54, 0x43) | (0x63, 0x74, 0x63) => Ok(SerialRequest::RemoveTotalCount),
        // 'S' or 's', 0, 0
        (0x53, 0x00, 0x00) | (0x73, 0x00, 0x00) => Ok(SerialRequest::StateCheck),
        // "SER" or "ser"
        (0x53, 0x45, 0x52) | (0x73, 0x65, 0x72) => Ok(SerialRequest::ErrorCheck),
        _ => Err(Error::WrongCommand),
    }
}

/// What a five-byte frame decodes to.
pub open spec fn serial_request_of_frame(f: Seq<u8>) -> Result<SerialRequest, Error> {
    let start_ok = f[0] == 0x24;
    let hash_ok = check_byte(f[1], f[2], f[3]) == f[4];
    if start_ok && hash_ok {
        serial_request_of_core((f[1], f[2], f[3]))
    } else if hash_ok {
        Err(Error::WrongStart)
    } else if start_ok {
        Err(Error::WrongHash)
    } else {
        Err(Error::WrongStartHash)
    }
}

impl SerialRequest {
    fn hash(array: &[u8; 5]) -> (r: u8)
        ensures
            r == check_byte(array@[1], array@[2], array@[3]),
    {
        array[1].wrapping_add(array[2]).wrapping_add(array[3])
    }

    fn is_valid_hash(array: &[u8; 5]) -> (r: bool)
        ensures
            r == (check_byte(array@[1], array@[2], array@[3]) == array@[4]),
    {
        SerialRequest::hash(array) == array[4]
    }

    fn from_core_data(core_data: (u8, u8, u8)) -> (r: Result<SerialRequest, Error>)
        ensures
            r == serial_request_of_core(core_data),
    {
        match core_data {
            (0x48, 0x49, 0x3F) => Ok(SerialRequest::SayHi),
            (0x49, 0x00, 0x00) | (0x69, 0x00, 0x00) => Ok(SerialRequest::Init),
            (0x44, _, 0x53) | (0x64, _, 0x73) => Ok(SerialRequest::Dispense(core_data.1)),
            (0x48, 0x00, 0x00) | (0x68, 0x00, 0x00) => Ok(SerialRequest::HaltAction),
            (0x48, 0x43, 0x3F) | (0x68, 0x63, 0x3F) => Ok(SerialRequest::HaltActionCancel),
            (0x52, 0x45, 0x4D) | (0x72, 0x65, 0x6D) => Ok(SerialRequest::RemoveCount),
            (0x47, 0x54, 0x3F) | (0x67, 0x74, 0x3F) => Ok(SerialRequest::GetTotalDispensed),
            (0x43, 0x54, 0x43) | (0x63, 0x74, 0x63) => Ok(SerialRequest::RemoveTotalCount),
            (0x53, 0x00, 0x00) | (0x73, 0x00, 0x00) => Ok(SerialRequest::StateCheck),
            (0x53, 0x45, 0x52) | (0x73, 0x65, 0x72) => Ok(SerialRequest::ErrorCheck),
            _ => Err(Error::WrongCommand),
        }
    }

    /// Decodes a received frame. It is a request exactly when the start byte
    /// is `$`, the check byte is the sum of the core data bytes modulo 256,
    /// and the core data names a request.
    pub fn from_array(array: &[u8; 5]) -> (r: Result<SerialRequest, Error>)
        ensures
            r == serial_request_of_frame(array@),
            r is Ok <==> (array@[0] == 0x24 && check_byte(array@[1], array@[2], array@[3]) == array@[4]
                && serial_request_of_core((array@[1], array@[2], array@[3])) is Ok),
            r == Err::<SerialRequest, Error>(Error::WrongStart) <==> (array@[0] != 0x24
                && check_byte(array@[1], array@[2], array@[3]) == array@[4]),
            r == Err::<SerialRequest, Error>(Error::WrongHash) <==> (array@[0] == 0x24
                && check_byte(array@[1], array@[2], array@[3]) != array@[4]),
            r == Err::<SerialRequest, Error>(Error::WrongStartHash) <==> (array@[0] != 0x24
                && check_byte(array@[1], array@[2], array@[3]) != array@[4]),
            r == Err::<SerialRequest, Error>(Error::WrongCommand) <==> (array@[0] == 0x24
                && check_byte(array@[1], array@[2], array@[3]) == array@[4]
                && serial_request_of_core((array@[1], array@[2], array@[3])) is Err),
    {
        let valid = SerialRequest::is_valid_hash(array);
        if array[0] == 0x24 && valid {
            SerialRequest::from_core_data((array[1], array[2], array[3]))
        } else if valid {
            Err(Error::WrongStart)
        } else if array[0] == 0x24 {
            Err(Error::WrongHash)
        } else {
            Err(Error::WrongStartHash)
        }
    }
}

impl SerialRequest {
    /// The request of the request table with the same name and count.
    pub open spec fn as_request(self) -> Request {
        match self {
            SerialRequest::SayHi => Request::SayHi,
            SerialRequest::Init => Request::Init,
            SerialRequest::Dispense(n) => Request::Dispense(n),
            SerialRequest::HaltAction => Request::HaltAction,
            SerialRequest::HaltActionCancel => Request::HaltActionCancel,
            SerialRequest::RemoveCount => Request::RemoveCount,
            SerialRequest::GetTotalDispensed => Request::GetTotalDispensed,
            SerialRequest::RemoveTotalCount => Request::RemoveTotalCount,
            SerialRequest::StateCheck => Request::StateCheck,
            SerialRequest::ErrorCheck => Request::ErrorCheck,
        }
    }
}

/// A decoding result of the receiver as a result of the request table.
pub open spec fn as_request_result(r: Result<SerialRequest, Error>) -> Result<Request, RequestError> {
    match r {
        Ok(q) => Ok(q.as_request()),
        Err(Error::WrongCommand) => Err(RequestError::WrongCommand),
        Err(Error::WrongStart) => Err(RequestError::WrongStart),
        Err(Error::WrongHash) => Err(RequestError::WrongHash),
        Err(Error::WrongStartHash) => Err(RequestError::WrongStartHash),
        Err(Error::WrongUnknown) => Err(RequestError::WrongUnknown),
    }
}

/// The two decoders of core data agree on every three bytes.
pub proof fn lemma_core_decoders_agree(core: (u8, u8, u8))
    ensures
        request_of_core(core) == as_request_result(serial_request_of_core(core)),
{
}

/// The receiver's frame decoder and the request table's frame decoder agree
/// on every five-byte frame: the same check byte, and the same request or
/// the same reason for a rejection.
pub proof fn lemma_agrees_with_request_decoder(f: Seq<u8>)
    requires
        f.len() == 5,
    ensures
        check_byte(f[1], f[2], f[3]) == frame_hash(f[1], f[2], f[3]),
        request_of_frame(f) == as_request_result(serial_request_of_frame(f)),
{
    lemma_core_decoders_agree((f[1], f[2], f[3]));
}

/// The check byte is the sum of the three core bytes modulo 256: raising one
/// core byte by one raises the check byte by one (wrapping from 255 to 0),
/// and three zero bytes have check byte 0.
pub proof fn lemma_check_byte_sums(a: u8, b: u8, c: u8)
    ensures
        check_byte(0, 0, 0) == 0,
        a < 255 ==> check_byte((a + 1) as u8, b, c) == (check_byte(a, b, c) + 1) % 256,
        b < 255 ==> check_byte(a, (b + 1) as u8, c) == (check_byte(a, b, c) + 1) % 256,
        c < 255 ==> check_byte(a, b, (c + 1) as u8) == (check_byte(a, b, c) + 1) % 256,
{
    let t: int = a + b + c;
    assert((t + 1) % 256 == ((t % 256) + 1) % 256) by (nonlinear_arith)
        requires
            t >= 0;
}

} // verus!
