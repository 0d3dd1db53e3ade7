//! Requests of the serial protocol: decoding of a received frame, the core
//! data of each request, whether a request can be carried out in a given
//! state, and the answer to it.
//!
//! A frame is five bytes: `$`, three bytes of core data, and a check byte
//! that is the sum of the core data bytes modulo 256.
use vstd::prelude::*;
use crate::obdl1000::caparr::{cap_spec, caparr_tdd, caparr_tdt, caparr_ttd, caparr_ttt};
use crate::obdl1000::state_code::StateCode;

verus! {

/// A request of the host.
#[derive(Copy, Clone, Debug, PartialEq, Eq, Structural)]
pub enum Request {
    SayHi,
    Init,
    /// Dispense the given number of sheets.
    Dispense(u8),
    HaltAction,
    HaltActionCancel,
    RemoveCount,
    GetTotalDispensed,
    RemoveTotalCount,
    StateCheck,
    ErrorCheck,
}

/// Why a received frame is not a request.
#[derive(Copy, Clone, Debug, PartialEq, Eq, Structural)]
pub enum Error {
    /// Start byte and check byte are right, the core data names no request.
    WrongCommand,
    /// The check byte is right, the start byte is not `$`.
    WrongStart,
    /// The start byte is `$`, the check byte is wrong.
    WrongHash,
    /// Both the start byte and the check byte are wrong.
    WrongStartHash,
    WrongUnknown,
}

/// The check byte of three core data bytes: their sum modulo 256.
pub open spec fn frame_hash(a: u8, b: u8, c: u8) -> u8 {
    ((a + b + c) % 256) as u8
}

/// The request that three core data bytes name. Most requests are accepted in
/// upper case and in lower case; `HI?` only in upper case.
pub open spec fn request_of_core(core: (u8, u8, u8)) -> Result<Request, Error> {
    match core {
        // "HI?"
        (0x48, 0x49, 0x3F) => Ok(Request::SayHi),
        // 'I' or 'i', 0, 0
        (0x49, 0x00, 0x00) | (0x69, 0x00, 0x00) => Ok(Request::Init),
        // 'D', n, 'S' or 'd', n, 's'
        (0x44, _, 0x53) | (0x64, _, 0x73) => Ok(Request::Dispense(core.1)),
        // 'H' or 'h', 0, 0
        (0x48, 0x00, 0x00) | (0x68, 0x00, 0x00) => Ok(Request::HaltAction),
        // "HC?" or "hc?"
        (0x48, 0x43, 0x3F) | (0x68, 0x63, 0x3F) => Ok(Request::HaltActionCancel),
        // "REM" or "rem"
        (0x52, 0x45, 0x4D) | (0x72, 0x65, 0x6D) => Ok(Request::RemoveCount),
        // "GT?" or "gt?"
        (0x47, 0x54, 0x3F) | (0x67, 0x74, 0x3F) => Ok(Request::GetTotalDispensed),
        // "CTC" or "ctc"
        (0x43, 0x54, 0x43) | (0x63, 0x74, 0x63) => Ok(Request::RemoveTotalCount),
        // 'S' or 's', 0, 0
        (0x53, 0x00, 0x00) | (0x73, 0x00, 0x00) => Ok(Request::StateCheck),
        // "SER" or "ser"
        (0x53, 0x45, 0x52) | (0x73, 0x65, 0x72) => Ok(Request::ErrorCheck),
        _ => Err(Error::WrongCommand),
    }
}

/// What a five-byte frame decodes to.
pub open spec fn request_of_frame(f: Seq<u8>) -> Result<Request, Error> {
    let start_ok = f[0] == 0x24;
    let hash_ok = frame_hash(f[1], f[2], f[3]) == f[4];
    if start_ok && hash_ok {
        request_of_core((f[1], f[2], f[3]))
    } else if hash_ok {
        Err(Error::WrongStart)
    } else if start_ok {
        Err(Error::WrongHash)
    } else {
        Err(Error::WrongStartHash)
    }
}

/// The total count that four answer bytes carry, most significant first.
pub open spec fn count_of_bytes(b3: u8, b2: u8, b1: u8, b0: u8) -> int {
    b3 * 0x100_0000 + b2 * 0x1_0000 + b1 * 0x100 + b0
}

impl Request {
    /// The core data that stands for the request: `HI?` (always in capitals),
    /// then `I`, `D`-count-`S`, `H`, `HC?`, `REM`, `GT?`, `CTC`, `S`, `SER`
    /// with their letters in the requested case and the zero bytes, `?` and
    /// the count kept.
    pub open spec fn core_data(self, capital: bool) -> Seq<u8> {
        match self {
            Request::SayHi => seq![0x48u8, 0x49u8, 0x3Fu8],
            Request::Init => seq![cap_spec(0x49, capital), 0x00u8, 0x00u8],
            Request::Dispense(n) => seq![cap_spec(0x44, capital), n, cap_spec(0x53, capital)],
            Request::HaltAction => seq![cap_spec(0x48, capital), 0x00u8, 0x00u8],
            Request::HaltActionCancel => seq![cap_spec(0x48, capital), cap_spec(0x43, capital), 0x3Fu8],
            Request::RemoveCount => seq![cap_spec(0x52, capital), cap_spec(0x45, capital), cap_spec(0x4D, capital)],
            Request::GetTotalDispensed => seq![cap_spec(0x47, capital), cap_spec(0x54, capital), 0x3Fu8],
            Request::RemoveTotalCount => seq![cap_spec(0x43, capital), cap_spec(0x54, capital), cap_spec(0x43, capital)],
            Request::StateCheck => seq![cap_spec(0x73, capital), 0x00u8, 0x00u8],
            Request::ErrorCheck => seq![cap_spec(0x53, capital), cap_spec(0x45, capital), cap_spec(0x52, capital)],
        }
    }

    /// Whether the request can be carried out in `state`: a dispense of zero
    /// sheets never, another dispense not while dispensing, halted or after
    /// a problem; a halt not while halted; removing or reading the counts not
    /// while dispensing; everything else always.
    pub open spec fn possible(self, state: StateCode) -> bool {
        match self {
            Request::SayHi => true,
            Request::Init => true,
            Request::Dispense(n) => n != 0 && !(state is WhileDispensing) && !(state is ActionHalted)
                && !(state is ProblemDispense),
            Request::HaltAction => !(state is ActionHalted),
            Request::HaltActionCancel => true,
            Request::RemoveCount => !(state is WhileDispensing),
            Request::GetTotalDispensed => !(state is WhileDispensing),
            Request::RemoveTotalCount => !(state is WhileDispensing),
            Request::StateCheck => true,
            Request::ErrorCheck => true,
        }
    }

    /// The core data of the (first) answer to the request in `state`: the
    /// fault answer `NS!` or `bs!` when the request is not possible, else
    /// `ME!`, `I`-0-`A`, `D`-count-`A`, `H`-0-`A`, `HC!`, `R`-0xFF-`O`, `T`
    /// with the two high bytes of the total count, `CT!`, the state answer of
    /// `state`, and `SE` with the error byte; letters other than the kept
    /// `A` of `I`-0-`A` and `H`-0-`A` are in the requested case.
    pub open spec fn answer_core(self, state: StateCode, capital: bool, extra: Option<u32>) -> Seq<u8> {
        let total = total_of(extra);
        if !self.possible(state) {
            if capital {
                seq![0x4Eu8, 0x53u8, 0x21u8]
            } else {
                seq![0x62u8, 0x73u8, 0x21u8]
            }
        } else {
            match self {
                Request::SayHi => seq![cap_spec(0x4D, capital), cap_spec(0x45, capital), 0x21u8],
                Request::Init => seq![cap_spec(0x49, capital), 0x00u8, 0x41u8],
                Request::Dispense(n) => seq![cap_spec(0x44, capital), n, cap_spec(0x41, capital)],
                Request::HaltAction => seq![cap_spec(0x48, capital), 0x00u8, 0x41u8],
                Request::HaltActionCancel => seq![cap_spec(0x48, capital), cap_spec(0x43, capital), 0x21u8],
                Request::RemoveCount => seq![cap_spec(0x52, capital), 0xFFu8, cap_spec(0x4F, capital)],
                Request::GetTotalDispensed => seq![cap_spec(0x54, capital), (total >> 24u32) as u8, (total >> 16u32) as u8],
                Request::RemoveTotalCount => seq![cap_spec(0x43, capital), cap_spec(0x54, capital), 0x21u8],
                Request::StateCheck => state.core_data(capital),
                Request::ErrorCheck => seq![cap_spec(0x53, capital), cap_spec(0x45, capital), error_byte_of(extra)],
            }
        }
    }

    /// The core data of the second answer packet to a total count request:
    /// `G` and the two low bytes of the count.
    pub open spec fn second_core(capital: bool, extra: Option<u32>) -> Seq<u8> {
        let total = total_of(extra);
        seq![cap_spec(0x47, capital), (total >> 8u32) as u8, total as u8]
    }

    fn hash(array: &[u8; 5]) -> (r: u8)
        ensures
            r == frame_hash(array@[1], array@[2], array@[3]),
    {
        array[1].wrapping_add(array[2]).wrapping_add(array[3])
    }

    fn is_valid_hash(array: &[u8; 5]) -> (r: bool)
        ensures
            r == (frame_hash(array@[1], array@[2], array@[3]) == array@[4]),
    {
        Request::hash(array) == array[4]
    }

    /// The request that three core data bytes name, or `WrongCommand`.
    pub fn from_core_data(core_data: (u8, u8, u8)) -> (r: Result<Request, Error>)
        ensures
            r == request_of_core(core_data),
            r is Err ==> r == Err::<Request, Error>(Error::WrongCommand),
    {
        match core_data {
            (0x48, 0x49, 0x3F) => Ok(Request::SayHi),
            (0x49, 0x00, 0x00) | (0x69, 0x00, 0x00) => Ok(Request::Init),
            (0x44, _, 0x53) | (0x64, _, 0x73) => Ok(Request::Dispense(core_data.1)),
            (0x48, 0x00, 0x00) | (0x68, 0x00, 0x00) => Ok(Request::HaltAction),
            (0x48, 0x43, 0x3F) | (0x68, 0x63, 0x3F) => Ok(Request::HaltActionCancel),
            (0x52, 0x45, 0x4D) | (0x72, 0x65, 0x6D) => Ok(Request::RemoveCount),
            (0x47, 0x54, 0x3F) | (0x67, 0x74, 0x3F) => Ok(Request::GetTotalDispensed),
            (0x43, 0x54, 0x43) | (0x63, 0x74, 0x63) => Ok(Request::RemoveTotalCount),
            (0x53, 0x00, 0x00) | (0x73, 0x00, 0x00) => Ok(Request::StateCheck),
            (0x53, 0x45, 0x52) | (0x73, 0x65, 0x72) => Ok(Request::ErrorCheck),
            _ => Err(Error::WrongCommand),
        }
    }

    /// Builds the core data that stands for the request.
    pub fn to_core_data(&self, capital: bool) -> (r: [u8; 3])
        ensures
            r@ == self.core_data(capital),
    {
        match self {
            // "HI?" in either case
            Request::SayHi => {
                let r: [u8; 3] = [0x48, 0x49, 0x3F];
                assert(r@ =~= seq![0x48u8, 0x49u8, 0x3Fu8]);
                r
            },
            Request::Init => caparr_tdd(0x49, 0x00, 0x00, capital),
            Request::Dispense(byte) => caparr_tdt(0x44, *byte, 0x53, capital),
            Request::HaltAction => caparr_tdd(0x48, 0x00, 0x00, capital),
            Request::HaltActionCancel => caparr_ttd(0x48, 0x43, 0x3F, capital),
            Request::RemoveCount => caparr_ttt(0x52, 0x45, 0x4D, capital),
            Request::GetTotalDispensed => caparr_ttd(0x47, 0x54, 0x3F, capital),
            Request::RemoveTotalCount => caparr_ttt(0x43, 0x54, 0x43, capital),
            Request::StateCheck => caparr_tdd(0x73, 0x00, 0x00, capital),
            Request::ErrorCheck => caparr_ttt(0x53, 0x45, 0x52, capital),
        }
    }

    /// Decodes a received frame. It is a request exactly when the start byte
    /// is `$`, the check byte is the sum of the core data bytes modulo 256,
    /// and the core data names a request.
    pub fn from_array(array: &[u8; 5]) -> (r: Result<Request, Error>)
        ensures
            r == request_of_frame(array@),
            r is Ok <==> (array@[0] == 0x24 && frame_hash(array@[1], array@[2], array@[3]) == array@[4]
                && request_of_core((array@[1], array@[2], array@[3])) is Ok),
            r == Err::<Request, Error>(Error::WrongStart) <==> (array@[0] != 0x24
                && frame_hash(array@[1], array@[2], array@[3]) == array@[4]),
            r == Err::<Request, Error>(Error::WrongHash) <==> (array@[0] == 0x24
                && frame_hash(array@[1], array@[2], array@[3]) != array@[4]),
            r == Err::<Request, Error>(Error::WrongStartHash) <==> (array@[0] != 0x24
                && frame_hash(array@[1], array@[2], array@[3]) != array@[4]),
            r == Err::<Request, Error>(Error::WrongCommand) <==> (array@[0] == 0x24
                && frame_hash(array@[1], array@[2], array@[3]) == array@[4]
                && request_of_core((array@[1], array@[2], array@[3])) is Err),
    {
        let valid = Request::is_valid_hash(array);
        if array[0] == 0x24 && valid {
            Request::from_core_data((array[1], array[2], array[3]))
        } else if valid {
            Err(Error::WrongStart)
        } else if array[0] == 0x24 {
            Err(Error::WrongHash)
        } else {
            Err(Error::WrongStartHash)
        }
    }

    /// Whether the request can be carried out in `state`.
    pub fn action_possibility(&self, state: &StateCode) -> (r: bool)
        ensures
            r == self.possible(*state),
    {
        match self {
            // The greeting is always answered.
            Request::SayHi => true,
            Request::Init => true,
            // Dispensing zero sheets is not allowed.
            Request::Dispense(0) => false,
            // Not while busy, halted, or after a problem.
            Request::Dispense(_) => match state {
                StateCode::WhileDispensing => false,
                StateCode::ActionHalted => false,
                StateCode::ProblemDispense(_) => false,
                _ => true,
            },
            Request::HaltAction => match state {
                StateCode::ActionHalted => false,
                _ => true,
            },
            Request::HaltActionCancel => true,
            // While dispensing the counters are locked.
            Request::RemoveCount => match state {
                StateCode::WhileDispensing => false,
                _ => true,
            },
            Request::GetTotalDispensed => match state {
                StateCode::WhileDispensing => false,
                _ => true,
            },
            Request::RemoveTotalCount => match state {
                StateCode::WhileDispensing => false,
                _ => true,
            },
            // Reading the state or the error is always allowed.
            Request::StateCheck => true,
            Request::ErrorCheck => true,
        }
    }

    /// The answer to the request in `state`: whether it is possible, the core
    /// data of the first answer packet, and, for a total count request only,
    /// the core data of the second packet. For a total count request `extra`
    /// is the count (0 when absent); for an error request its low byte is the
    /// error's serial answer byte (`0x80`, no error, when absent).
    pub fn action_response(&self, state: &StateCode, capital: bool, extra: Option<u32>) -> (r: (
        bool,
        Option<[u8; 3]>,
        Option<[u8; 3]>,
    ))
        ensures
            r.0 == self.possible(*state),
            r.1 is Some,
            r.1 matches Some(c) && c@ == self.answer_core(*state, capital, extra),
            (*self is GetTotalDispensed) <==> r.2 is Some,
            r.2 matches Some(c) ==> c@ == Request::second_core(capital, extra),
    {
        let possible = self.action_possibility(state);
        let total: u32 = match extra {
            Some(v) => v,
            None => 0,
        };
        let core_data_1 = if !possible {
            if capital {
                // "NS!"
                [0x4E, 0x53, 0x21]
            } else {
                // "bs!"
                [0x62, 0x73, 0x21]
            }
        } else {
            match self {
                // "ME!"
                Request::SayHi => caparr_ttd(0x4D, 0x45, 0x21, capital),
                Request::Init => caparr_tdd(0x49, 0x00, 0x41, capital),
                Request::Dispense(byte) => caparr_tdt(0x44, *byte, 0x41, capital),
                Request::HaltAction => caparr_tdd(0x48, 0x00, 0x41, capital),
                // "HC!"
                Request::HaltActionCancel => caparr_ttd(0x48, 0x43, 0x21, capital),
                // 'R', 0xFF, 'O'
                Request::RemoveCount => caparr_tdt(0x52, 0xFF, 0x4F, capital),
                Request::GetTotalDispensed => caparr_tdd(
                    0x54,
                    (total >> 24u32) as u8,
                    (total >> 16u32) as u8,
                    capital,
                ),
                // "CT!"
                Request::RemoveTotalCount => caparr_ttd(0x43, 0x54, 0x21, capital),
                // The state answer.
                Request::StateCheck => state.to_core_data(capital),
                // 'S', 'E', the error byte
                Request::ErrorCheck => {
                    let code: u8 = match extra {
                        Some(v) => v as u8,
                        None => 0x80,
                    };
                    caparr_ttd(0x53, 0x45, code, capital)
                },
            }
        };
        proof {
            assert(core_data_1@ =~= self.answer_core(*state, capital, extra));
        }
        match self {
            Request::GetTotalDispensed => (
                possible,
                Some(core_data_1),
                Some(caparr_tdd(0x47, (total >> 8u32) as u8, total as u8, capital)),
            ),
            _ => (possible, Some(core_data_1), None),
        }
    }
}

/// The error byte handed to an answer: the low byte of the given value, or
/// `0x80` (no error).
pub open spec fn error_byte_of(extra: Option<u32>) -> u8 {
    match extra {
        Some(v) => v as u8,
        None => 0x80,
    }
}

/// The total count handed to an answer: the given value, or 0.
pub open spec fn total_of(extra: Option<u32>) -> u32 {
    match extra {
        Some(v) => v,
        None => 0,
    }
}

/// Decoding a frame that starts with `$` and carries the right check byte
/// gives what its core data names.
pub proof fn lemma_framed_core_decodes(core: (u8, u8, u8))
    ensures
        request_of_frame(seq![0x24u8, core.0, core.1, core.2, frame_hash(core.0, core.1, core.2)])
            == request_of_core(core),
{
}

/// The four count bytes of the answers to a possible total count request
/// (the two of the first packet, then the two of the second) give back the
/// total count.
pub proof fn lemma_total_count_round_trip(state: StateCode, capital: bool, extra: Option<u32>)
    requires
        Request::GetTotalDispensed.possible(state),
    ensures
        count_of_bytes(
            Request::GetTotalDispensed.answer_core(state, capital, extra)[1],
            Request::GetTotalDispensed.answer_core(state, capital, extra)[2],
            Request::second_core(capital, extra)[1],
            Request::second_core(capital, extra)[2],
        ) == total_of(extra),
{
    let v = total_of(extra);
    assert(((v >> 24u32) as u8) as u32 * 0x100_0000u32 + ((v >> 16u32) as u8) as u32 * 0x1_0000u32
        + ((v >> 8u32) as u8) as u32 * 0x100u32 + (v as u8) as u32 == v) by (bit_vector);
}

/// Decoding the core data that a request stands for, in either case, gives
/// the request back.
pub proof fn lemma_core_data_round_trip(r: Request, capital: bool)
    ensures
        request_of_core((r.core_data(capital)[0], r.core_data(capital)[1], r.core_data(capital)[2]))
            == Ok::<Request, Error>(r),
{
}

/// A dispense request that can be carried out is answered `D`, the sheet
/// count exactly as requested, `A` (small letters when `capital` is clear);
/// the count is never put in another case.
pub proof fn lemma_dispense_answer_echoes_count(n: u8, state: StateCode, capital: bool, extra: Option<u32>)
    requires
        Request::Dispense(n).possible(state),
    ensures
        Request::Dispense(n).answer_core(state, capital, extra).len() == 3,
        Request::Dispense(n).answer_core(state, capital, extra)[0] == (if capital { 0x44u8 } else { 0x64u8 }),
        Request::Dispense(n).answer_core(state, capital, extra)[1] == n,
        Request::Dispense(n).answer_core(state, capital, extra)[2] == (if capital { 0x41u8 } else { 0x61u8 }),
{
}

/// The core data of a dispense request carries the sheet count unchanged in
/// either case, between `D` and `S`.
pub proof fn lemma_dispense_request_keeps_count(n: u8, capital: bool)
    ensures
        Request::Dispense(n).core_data(capital)[0] == (if capital { 0x44u8 } else { 0x64u8 }),
        Request::Dispense(n).core_data(capital)[1] == n,
        Request::Dispense(n).core_data(capital)[2] == (if capital { 0x53u8 } else { 0x73u8 }),
{
}

/// When each request can be carried out: the counters are locked only while
/// dispensing; a dispense needs a nonzero count and an idle dispenser or one
/// whose last dispense succeeded; a halt is refused only while halted; the
/// greeting, init, cancelling a halt and the two checks are always possible.
pub proof fn lemma_possibility(state: StateCode, n: u8)
    ensures
        Request::RemoveCount.possible(state) <==> !(state is WhileDispensing),
        Request::GetTotalDispensed.possible(state) <==> !(state is WhileDispensing),
        Request::RemoveTotalCount.possible(state) <==> !(state is WhileDispensing),
        Request::Dispense(n).possible(state) <==> (n != 0 && (state is Idle || state is SuccessDispense)),
        Request::HaltAction.possible(state) <==> !(state is ActionHalted),
        Request::SayHi.possible(state),
        Request::Init.possible(state),
        Request::HaltActionCancel.possible(state),
        Request::StateCheck.possible(state),
        Request::ErrorCheck.possible(state),
{
}

/// Any two requests that cannot be carried out get the same answer: `NS!`
/// in capitals, `bs!` otherwise, whatever the request and the extra value.
pub proof fn lemma_refusals_alike(
    r1: Request,
    r2: Request,
    state: StateCode,
    capital: bool,
    x1: Option<u32>,
    x2: Option<u32>,
)
    requires
        !r1.possible(state),
        !r2.possible(state),
    ensures
        r1.answer_core(state, capital, x1) == r2.answer_core(state, capital, x2),
        r1.answer_core(state, capital, x1) == (if capital { seq![0x4Eu8, 0x53u8, 0x21u8] } else {
            seq![0x62u8, 0x73u8, 0x21u8]
        }),
{
}

/// The state check is answered with the state answer of the current state,
/// and the error check with `S`, `E` and the low byte of the extra value
/// (`0x80` without one).
pub proof fn lemma_check_answers(state: StateCode, capital: bool, extra: Option<u32>)
    ensures
        Request::StateCheck.answer_core(state, capital, extra) == state.core_data(capital),
        Request::ErrorCheck.answer_core(state, capital, extra) == seq![
            if capital { 0x53u8 } else { 0x73u8 },
            if capital { 0x45u8 } else { 0x65u8 },
            match extra { Some(v) => (v % 256) as u8, None => 0x80u8 },
        ],
{
    match extra {
        Some(v) => {
            assert((v as u8) == (v % 256) as u8) by (bit_vector);
        },
        None => {},
    }
}

/// The decoder accepts exactly the encodings: three core bytes name a
/// request only when they are that request's core data in capitals or in
/// small letters.
pub proof fn lemma_decoder_accepts_only_encodings(core: (u8, u8, u8))
    ensures
        request_of_core(core) matches Ok(r) ==> (seq![core.0, core.1, core.2] == r.core_data(true)
            || seq![core.0, core.1, core.2] == r.core_data(false)),
{
    if let Ok(r) = request_of_core(core) {
        let c = seq![core.0, core.1, core.2];
        assert(c =~= r.core_data(true) || c =~= r.core_data(false));
    }
}

/// A request's core data in small letters is its core data in capitals with
/// every byte put in small letters (and back), except the greeting, which is
/// `HI?` in both, and the sheet count of a dispense, which is kept.
pub proof fn lemma_core_data_cases(r: Request, i: int)
    requires
        0 <= i < 3,
    ensures
        Request::SayHi.core_data(true) == seq![0x48u8, 0x49u8, 0x3Fu8],
        Request::SayHi.core_data(false) == seq![0x48u8, 0x49u8, 0x3Fu8],
        !(r is SayHi) && !(r is Dispense && i == 1) ==> (
            r.core_data(false)[i] == cap_spec(r.core_data(true)[i], false)
            && r.core_data(true)[i] == cap_spec(r.core_data(false)[i], true)),
{
}

} // verus!
