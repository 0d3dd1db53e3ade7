//! Decisions of the firmware's interrupt tasks, apart from the hardware:
//! assembling request frames from the serial receiver byte by byte, framing
//! outgoing packets, the error answer packets, the 200 Hz pulse output, the
//! edge detection on the parallel inputs, and the millisecond tick.
use vstd::prelude::*;
use crate::obdl1000::caparr::{cap_spec, cap_u8};
use crate::obdl1000::error_code::ErrorCode;
use crate::obdl1000::request::{request_of_core, request_of_frame};
use crate::obdl1000_serial_request::{
    check_byte, serial_request_of_core, serial_request_of_frame, Error, SerialRequest,
};

verus! {

/// The kind of a command decoded from a frame, or why the frame was rejected.
#[derive(Copy, Clone, Debug, PartialEq, Eq, Structural)]
pub enum CommandActionKind {
    SayHi,
    Init,
    Dispense,
    HaltAction,
    HaltActionCancel,
    RemoveCount,
    GetTotalDispensed,
    RemoveTotalCount,
    StateCheck,
    ErrorCheck,
    WrongCommand,
    WrongStart,
    WrongHash,
    WrongStartHash,
    WrongUnknown,
}

/// The states of the dispenser as the firmware names them.
#[derive(Copy, Clone, Debug, PartialEq, Eq, Structural)]
pub enum StateKind {
    Idle,
    WhileDispensing,
    ActionHalted,
    SuccessDispense,
    ProblemDispense,
}

/// The errors of the dispenser as the firmware answers them.
#[derive(Copy, Clone, Debug, PartialEq, Eq, Structural)]
pub enum ErrorKind {
    Empty,
    Jam,
    BillDouble,
    NotEmit,
    LengthLong,
    LengthShort,
    RejOver,
    MotorLock,
    Incline,
    NoError,
}

/// A decoded command: its kind and, for a dispense, the number of sheets
/// (0 otherwise).
#[derive(Copy, Clone, Debug, PartialEq, Eq, Structural)]
pub struct CommandAction {
    pub kind: CommandActionKind,
    pub data: u8,
}

/// What one read of the serial receiver gave.
#[derive(Copy, Clone, Debug, PartialEq, Eq, Structural)]
pub enum ReadEvent {
    /// No byte is waiting.
    WouldBlock,
    /// Overrun, framing, noise or parity error.
    LineError,
    /// A byte was received.
    Byte(u8),
}

/// What the receiver task did with one read.
#[derive(Copy, Clone, Debug, PartialEq, Eq, Structural)]
pub enum TapOutcome {
    /// Nothing was read; the count is kept.
    NoData,
    /// A line error; the count is reset.
    LineError,
    /// A `$` was read.
    StartMark,
    /// The buffer was full and the byte read completes a frame.
    Frame(CommandAction),
    /// The count stood at 5; it is reset.
    BufferFull,
    /// The byte was stored in the buffer.
    Stored,
}

/// The frame assembler of the serial receiver: four buffered bytes and the
/// number of bytes taken so far.
pub struct SerialTap {
    pub buffer: [u8; 4],
    pub cnt: u8,
}

/// The previous levels of the parallel inputs (pulse, empty, error) and a
/// flag that marks every line as changed.
pub struct ParallelInput {
    pub prev_state: (bool, bool, bool, bool),
}

/// The counters of the 200 Hz pulse output: the current step and the number
/// of steps to run.
pub struct PPulse200HzTask {
    pub tcnt: i16,
    pub data: i16,
}

/// What the pulse output does on one timer interrupt.
#[derive(Copy, Clone, Debug, PartialEq, Eq, Structural)]
pub enum PulseAction {
    /// Drive the output low.
    SetLow,
    /// Drive the output high.
    SetHigh,
    /// Drive the output low and stop the timer interrupt.
    Stop,
}

/// The command that the result of decoding a frame stands for.
pub open spec fn command_of(r: Result<SerialRequest, Error>) -> CommandAction {
    match r {
        Ok(SerialRequest::SayHi) => CommandAction { kind: CommandActionKind::SayHi, data: 0 },
        Ok(SerialRequest::Init) => CommandAction { kind: CommandActionKind::Init, data: 0 },
        Ok(SerialRequest::Dispense(n)) => CommandAction { kind: CommandActionKind::Dispense, data: n },
        Ok(SerialRequest::HaltAction) => CommandAction { kind: CommandActionKind::HaltAction, data: 0 },
        Ok(SerialRequest::HaltActionCancel) => CommandAction { kind: CommandActionKind::HaltActionCancel, data: 0 },
        Ok(SerialRequest::RemoveCount) => CommandAction { kind: CommandActionKind::RemoveCount, data: 0 },
        Ok(SerialRequest::GetTotalDispensed) => CommandAction { kind: CommandActionKind::GetTotalDispensed, data: 0 },
        Ok(SerialRequest::RemoveTotalCount) => CommandAction { kind: CommandActionKind::RemoveTotalCount, data: 0 },
        Ok(SerialRequest::StateCheck) => CommandAction { kind: CommandActionKind::StateCheck, data: 0 },
        Ok(SerialRequest::ErrorCheck) => CommandAction { kind: CommandActionKind::ErrorCheck, data: 0 },
        Err(Error::WrongCommand) => CommandAction { kind: CommandActionKind::WrongCommand, data: 0 },
        Err(Error::WrongStart) => CommandAction { kind: CommandActionKind::WrongStart, data: 0 },
        Err(Error::WrongHash) => CommandAction { kind: CommandActionKind::WrongHash, data: 0 },
        Err(Error::WrongStartHash) => CommandAction { kind: CommandActionKind::WrongStartHash, data: 0 },
        Err(Error::WrongUnknown) => CommandAction { kind: CommandActionKind::WrongUnknown, data: 0 },
    }
}

fn command_of_result(r: Result<SerialRequest, Error>) -> (c: CommandAction)
    ensures
        c == command_of(r),
{
    match r {
        Ok(SerialRequest::SayHi) => CommandAction { kind: CommandActionKind::SayHi, data: 0 },
        Ok(SerialRequest::Init) => CommandAction { kind: CommandActionKind::Init, data: 0 },
        Ok(SerialRequest::Dispense(n)) => CommandAction { kind: CommandActionKind::Dispense, data: n },
        Ok(SerialRequest::HaltAction) => CommandAction { kind: CommandActionKind::HaltAction, data: 0 },
        Ok(SerialRequest::HaltActionCancel) => CommandAction { kind: CommandActionKind::HaltActionCancel, data: 0 },
        Ok(SerialRequest::RemoveCount) => CommandAction { kind: CommandActionKind::RemoveCount, data: 0 },
        Ok(SerialRequest::GetTotalDispensed) => CommandAction { kind: CommandActionKind::GetTotalDispensed, data: 0 },
        Ok(SerialRequest::RemoveTotalCount) => CommandAction { kind: CommandActionKind::RemoveTotalCount, data: 0 },
        Ok(SerialRequest::StateCheck) => CommandAction { kind: CommandActionKind::StateCheck, data: 0 },
        Ok(SerialRequest::ErrorCheck) => CommandAction { kind: CommandActionKind::ErrorCheck, data: 0 },
        Err(Error::WrongCommand) => CommandAction { kind: CommandActionKind::WrongCommand, data: 0 },
        Err(Error::WrongStart) => CommandAction { kind: CommandActionKind::WrongStart, data: 0 },
        Err(Error::WrongHash) => CommandAction { kind: CommandActionKind::WrongHash, data: 0 },
        Err(Error::WrongStartHash) => CommandAction { kind: CommandActionKind::WrongStartHash, data: 0 },
        Err(Error::WrongUnknown) => CommandAction { kind: CommandActionKind::WrongUnknown, data: 0 },
    }
}

/// Decodes the four buffered bytes and the byte just read as one frame.
pub fn parse_frame(buffer: &[u8; 4], byte: u8) -> (c: CommandAction)
    ensures
        c == command_of(serial_request_of_frame(seq![buffer@[0], buffer@[1], buffer@[2], buffer@[3], byte])),
{
    let frame: [u8; 5] = [buffer[0], buffer[1], buffer[2], buffer[3], byte];
    proof {
        assert(frame@ =~= seq![buffer@[0], buffer@[1], buffer@[2], buffer@[3], byte]);
    }
    command_of_result(SerialRequest::from_array(&frame))
}

/// The five bytes sent for a packet: `$`, the three core data bytes, and
/// their sum modulo 256. Such a frame decodes to what its core data names.
pub fn uart_frame(packet: (u8, u8, u8)) -> (r: [u8; 5])
    ensures
        r@ == seq![0x24u8, packet.0, packet.1, packet.2, check_byte(packet.0, packet.1, packet.2)],
        serial_request_of_frame(r@) == serial_request_of_core(packet),
        request_of_frame(r@) == request_of_core(packet),
{
    let r: [u8; 5] = [
        0x24,
        packet.0,
        packet.1,
        packet.2,
        packet.0.wrapping_add(packet.1).wrapping_add(packet.2),
    ];
    proof {
        assert(r@ =~= seq![0x24u8, packet.0, packet.1, packet.2, check_byte(packet.0, packet.1, packet.2)]);
    }
    r
}

impl ErrorKind {
    /// The serial answer byte of the error: `0x80` for no error, `0x81` to
    /// `0x87` for `Empty` to `RejOver`, `0x8c` for a motor lock, `0x8e` for an
    /// incline.
    pub open spec fn serial_code(self) -> u8 {
        match self {
            ErrorKind::Empty => 0x81,
            ErrorKind::Jam => 0x82,
            ErrorKind::BillDouble => 0x83,
            ErrorKind::NotEmit => 0x84,
            ErrorKind::LengthLong => 0x85,
            ErrorKind::LengthShort => 0x86,
            ErrorKind::RejOver => 0x87,
            ErrorKind::MotorLock => 0x8c,
            ErrorKind::Incline => 0x8e,
            ErrorKind::NoError => 0x80,
        }
    }

    /// The core data of the error answer: `S` and `E`, in capitals unless
    /// `is_signed` is set, then the serial answer byte.
    pub fn error_state_packet(&self, is_signed: bool) -> (r: (u8, u8, u8))
        ensures
            r == (cap_spec(0x73, !is_signed), cap_spec(0x65, !is_signed), self.serial_code()),
    {
        let code: u8 = match self {
            ErrorKind::Empty => 0x81,
            ErrorKind::Jam => 0x82,
            ErrorKind::BillDouble => 0x83,
            ErrorKind::NotEmit => 0x84,
            ErrorKind::LengthLong => 0x85,
            ErrorKind::LengthShort => 0x86,
            ErrorKind::RejOver => 0x87,
            ErrorKind::MotorLock => 0x8c,
            ErrorKind::Incline => 0x8e,
            ErrorKind::NoError => 0x80,
        };
        // 's', 'e'
        (cap_u8(0x73, !is_signed), cap_u8(0x65, !is_signed), code)
    }
}

impl SerialTap {
    /// Whether a `$` read now is the sheet count of a dispense request: two
    /// bytes are counted and the second one is `D` or `d`.
    pub open spec fn dollar_is_count(buffer: Seq<u8>, cnt: u8) -> bool {
        cnt == 2 && (buffer[1] == 0x44 || buffer[1] == 0x64)
    }

    /// The count after reading `ev` with `buffer` and `cnt`.
    pub open spec fn next_cnt(buffer: Seq<u8>, cnt: u8, ev: ReadEvent) -> u8 {
        match ev {
            ReadEvent::WouldBlock => cnt,
            ReadEvent::LineError => 0,
            ReadEvent::Byte(b) => if b == 0x24 {
                if SerialTap::dollar_is_count(buffer, cnt) {
                    3
                } else {
                    1
                }
            } else if cnt == 4 || cnt == 5 {
                0
            } else {
                (cnt + 1) as u8
            },
        }
    }

    /// The buffer after reading `ev` with `buffer` and `cnt`.
    pub open spec fn next_buffer(buffer: Seq<u8>, cnt: u8, ev: ReadEvent) -> Seq<u8> {
        match ev {
            ReadEvent::Byte(b) => if b == 0x24 {
                if SerialTap::dollar_is_count(buffer, cnt) {
                    buffer.update(2, 0x24u8)
                } else {
                    buffer.update(0, 0x24u8)
                }
            } else if cnt == 4 || cnt == 5 {
                buffer
            } else {
                buffer.update(cnt as int, b)
            },
            _ => buffer,
        }
    }

    /// What reading `ev` with `buffer` and `cnt` reports.
    pub open spec fn outcome(buffer: Seq<u8>, cnt: u8, ev: ReadEvent) -> TapOutcome {
        match ev {
            ReadEvent::WouldBlock => TapOutcome::NoData,
            ReadEvent::LineError => TapOutcome::LineError,
            ReadEvent::Byte(b) => if b == 0x24 {
                TapOutcome::StartMark
            } else if cnt == 4 {
                TapOutcome::Frame(command_of(serial_request_of_frame(buffer.push(b))))
            } else if cnt == 5 {
                TapOutcome::BufferFull
            } else {
                TapOutcome::Stored
            },
        }
    }

    /// The state that the receiver starts from: an empty buffer.
    pub fn new() -> (tap: SerialTap)
        ensures
            tap.buffer@ == seq![0u8, 0u8, 0u8, 0u8],
            tap.cnt == 0,
    {
        let tap = SerialTap { buffer: [0, 0, 0, 0], cnt: 0 };
        assert(tap.buffer@ =~= seq![0u8, 0u8, 0u8, 0u8]);
        tap
    }

    /// Takes one read of the serial receiver. A `$` starts a frame: it is
    /// kept as the first byte and the count becomes 1, unless two bytes are
    /// counted and the second is `D` or `d`, where the `$` is the sheet count
    /// of a dispense request and is stored as the third byte. A line error
    /// resets the count. When four bytes are buffered the next byte completes
    /// the frame, which is decoded, and the count is reset; otherwise the byte
    /// is stored and counted.
    pub fn on_read(&mut self, ev: ReadEvent) -> (out: TapOutcome)
        requires
            !(ev matches ReadEvent::Byte(b) && b != 0x24 && old(self).cnt >= 6),
        ensures
            final(self).cnt == SerialTap::next_cnt(old(self).buffer@, old(self).cnt, ev),
            final(self).buffer@ == SerialTap::next_buffer(old(self).buffer@, old(self).cnt, ev),
            out == SerialTap::outcome(old(self).buffer@, old(self).cnt, ev),
            old(self).cnt <= 4 ==> final(self).cnt <= 4,
    {
        match ev {
            ReadEvent::WouldBlock => TapOutcome::NoData,
            ReadEvent::LineError => {
                self.cnt = 0;
                TapOutcome::LineError
            },
            ReadEvent::Byte(b) => {
                if b == 0x24 {
                    if self.cnt == 2 && (self.buffer[1] == 0x44 || self.buffer[1] == 0x64) {
                        self.buffer[2] = 0x24;
                        self.cnt = 3;
                    } else {
                        self.buffer[0] = 0x24;
                        self.cnt = 1;
                    }
                    TapOutcome::StartMark
                } else if self.cnt == 4 {
                    let parsed = parse_frame(&self.buffer, b);
                    proof {
                        assert(self.buffer@.push(b) =~= seq![
                            self.buffer@[0],
                            self.buffer@[1],
                            self.buffer@[2],
                            self.buffer@[3],
                            b,
                        ]);
                    }
                    self.cnt = 0;
                    TapOutcome::Frame(parsed)
                } else if self.cnt == 5 {
                    self.cnt = 0;
                    TapOutcome::BufferFull
                } else {
                    let i = self.cnt as usize;
                    self.buffer[i] = b;
                    self.cnt = self.cnt + 1;
                    TapOutcome::Stored
                }
            },
        }
    }
}

impl ParallelInput {
    /// No line seen low yet, no line marked as changed.
    pub fn new() -> (p: ParallelInput)
        ensures
            p.prev_state == (false, false, false, false),
    {
        ParallelInput { prev_state: (false, false, false, false) }
    }

    /// For each of the three lines, whether its level differs from the
    /// previous one or every line is marked as changed.
    pub fn changed_lines(&self, current: (bool, bool, bool)) -> (r: (bool, bool, bool))
        ensures
            r == (
                current.0 != self.prev_state.0 || self.prev_state.3,
                current.1 != self.prev_state.1 || self.prev_state.3,
                current.2 != self.prev_state.2 || self.prev_state.3,
            ),
    {
        (
            (current.0 != self.prev_state.0) || (false != self.prev_state.3),
            (current.1 != self.prev_state.1) || (false != self.prev_state.3),
            (current.2 != self.prev_state.2) || (false != self.prev_state.3),
        )
    }
}

impl PPulse200HzTask {
    /// What the output does at step `tcnt` of a run of `data` steps: while a
    /// run is in progress (`0 < data` and `tcnt < data`) it is low during the
    /// waiting steps (`tcnt < 0`) and then high on even and low on odd
    /// steps; otherwise it is driven low and the timer is stopped.
    pub open spec fn action_at(tcnt: i16, data: i16) -> PulseAction {
        if 0 < data && tcnt < data {
            if tcnt < 0 {
                PulseAction::SetLow
            } else if tcnt % 2 == 0 {
                PulseAction::SetHigh
            } else {
                PulseAction::SetLow
            }
        } else {
            PulseAction::Stop
        }
    }

    /// No run in progress.
    pub fn new() -> (t: PPulse200HzTask)
        ensures
            t.tcnt == 0,
            t.data == 0,
    {
        PPulse200HzTask { tcnt: 0, data: 0 }
    }

    /// What the output does on this timer interrupt.
    pub fn pulse_action(&self) -> (r: PulseAction)
        ensures
            r == PPulse200HzTask::action_at(self.tcnt, self.data),
    {
        let valid_task = 0 < self.data;
        let wait_time = self.tcnt < 0;
        let toggle_run = self.tcnt < self.data;
        match (valid_task, wait_time, toggle_run) {
            (true, true, true) => PulseAction::SetLow,
            (true, false, true) => {
                let t = self.tcnt;
                assert(t >= 0 ==> ((t & 1i16) == 0i16 <==> t % 2 == 0)) by (bit_vector);
                if self.tcnt & 0b1 == 0 {
                    PulseAction::SetHigh
                } else {
                    PulseAction::SetLow
                }
            },
            _ => PulseAction::Stop,
        }
    }
}

/// The millisecond tick after one more timer interrupt; it wraps around at
/// 2^32 as the firmware's arithmetic does.
pub fn next_tick(tick: u32) -> (r: u32)
    ensures
        r == (tick + 1) % 0x1_0000_0000,
{
    tick.wrapping_add(1)
}

/// A frame `$`, a, b, c, check byte, read from any state with at most four
/// bytes counted (other than one where a `$` is a dispense count), is
/// delivered as the command that a, b, c name, and the count is back at 0.
/// The frame's bytes must not be `$` where a `$` restarts the frame: the
/// first and third core bytes and the check byte never, the second only as
/// the count of a dispense request (first core byte `D` or `d`).
pub proof fn lemma_frame_delivered(buffer: Seq<u8>, cnt: u8, a: u8, b: u8, c: u8)
    requires
        buffer.len() == 4,
        cnt <= 4,
        !SerialTap::dollar_is_count(buffer, cnt),
        a != 0x24,
        b == 0x24 ==> (a == 0x44 || a == 0x64),
        c != 0x24,
        check_byte(a, b, c) != 0x24,
    ensures
        ({
            let h = check_byte(a, b, c);
            let b1 = SerialTap::next_buffer(buffer, cnt, ReadEvent::Byte(0x24));
            let n1 = SerialTap::next_cnt(buffer, cnt, ReadEvent::Byte(0x24));
            let b2 = SerialTap::next_buffer(b1, n1, ReadEvent::Byte(a));
            let n2 = SerialTap::next_cnt(b1, n1, ReadEvent::Byte(a));
            let b3 = SerialTap::next_buffer(b2, n2, ReadEvent::Byte(b));
            let n3 = SerialTap::next_cnt(b2, n2, ReadEvent::Byte(b));
            let b4 = SerialTap::next_buffer(b3, n3, ReadEvent::Byte(c));
            let n4 = SerialTap::next_cnt(b3, n3, ReadEvent::Byte(c));
            &&& n4 == 4
            &&& b4 == seq![0x24u8, a, b, c]
            &&& SerialTap::outcome(b4, n4, ReadEvent::Byte(h))
                == TapOutcome::Frame(command_of(serial_request_of_core((a, b, c))))
            &&& SerialTap::next_cnt(b4, n4, ReadEvent::Byte(h)) == 0
        }),
{
    let h = check_byte(a, b, c);
    let b1 = SerialTap::next_buffer(buffer, cnt, ReadEvent::Byte(0x24));
    let n1 = SerialTap::next_cnt(buffer, cnt, ReadEvent::Byte(0x24));
    assert(n1 == 1 && b1[0] == 0x24);
    let b2 = SerialTap::next_buffer(b1, n1, ReadEvent::Byte(a));
    let n2 = SerialTap::next_cnt(b1, n1, ReadEvent::Byte(a));
    assert(n2 == 2 && b2[0] == 0x24 && b2[1] == a);
    let b3 = SerialTap::next_buffer(b2, n2, ReadEvent::Byte(b));
    let n3 = SerialTap::next_cnt(b2, n2, ReadEvent::Byte(b));
    assert(n3 == 3 && b3[0] == 0x24 && b3[1] == a && b3[2] == b);
    let b4 = SerialTap::next_buffer(b3, n3, ReadEvent::Byte(c));
    assert(b4 =~= seq![0x24u8, a, b, c]);
    assert(b4.push(h) =~= seq![0x24u8, a, b, c, h]);
}

impl ErrorKind {
    /// The error of the serial error table with the same name.
    pub open spec fn as_error_code(self) -> ErrorCode {
        match self {
            ErrorKind::Empty => ErrorCode::Empty,
            ErrorKind::Jam => ErrorCode::Jam,
            ErrorKind::BillDouble => ErrorCode::BillDouble,
            ErrorKind::NotEmit => ErrorCode::NotEmit,
            ErrorKind::LengthLong => ErrorCode::LengthLong,
            ErrorKind::LengthShort => ErrorCode::LengthShort,
            ErrorKind::RejOver => ErrorCode::RejOver,
            ErrorKind::MotorLock => ErrorCode::MotorLock,
            ErrorKind::Incline => ErrorCode::Incline,
            ErrorKind::NoError => ErrorCode::NoError,
        }
    }
}

/// The error answer of each error carries `0x80` plus the error's number in
/// the dispenser's error table (the serial code of the same-named error
/// code), after `S` and `E` (small letters when `is_signed` is set); two
/// different errors never share an answer byte.
pub proof fn lemma_error_packet_codes(k: ErrorKind, j: ErrorKind, is_signed: bool)
    ensures
        k.serial_code() == k.as_error_code().serial_code(),
        k.serial_code() == 0x80 + k.as_error_code().number(),
        cap_spec(0x73, !is_signed) == (if is_signed { 0x73u8 } else { 0x53u8 }),
        cap_spec(0x65, !is_signed) == (if is_signed { 0x65u8 } else { 0x45u8 }),
        k != j ==> k.serial_code() != j.serial_code(),
{
}

/// The pulse output during a run of `data` steps: low while waiting, high on
/// the first step, and from then on alternating between high and low, one
/// step at a time, until the run ends and the timer is stopped.
pub proof fn lemma_pulse_alternates(tcnt: i16, data: i16)
    ensures
        0 < data && tcnt < 0 ==> PPulse200HzTask::action_at(tcnt, data) == PulseAction::SetLow,
        0 < data ==> PPulse200HzTask::action_at(0, data) == PulseAction::SetHigh,
        0 <= tcnt && tcnt + 1 < data ==> (
            PPulse200HzTask::action_at(tcnt, data) == PulseAction::SetHigh
            <==> PPulse200HzTask::action_at((tcnt + 1) as i16, data) == PulseAction::SetLow),
        0 <= tcnt < data ==> PPulse200HzTask::action_at(tcnt, data) != PulseAction::Stop,
        tcnt >= data || data <= 0 ==> PPulse200HzTask::action_at(tcnt, data) == PulseAction::Stop,
{
}

/// A decoded command carries the sheet count of a dispense request and 0
/// otherwise, and it is of a rejection kind exactly when the frame was
/// rejected.
pub proof fn lemma_command_data(r: Result<SerialRequest, Error>)
    ensures
        command_of(r).data == (match r {
            Ok(SerialRequest::Dispense(n)) => n,
            _ => 0u8,
        }),
        r is Err <==> (command_of(r).kind is WrongCommand || command_of(r).kind is WrongStart
            || command_of(r).kind is WrongHash || command_of(r).kind is WrongStartHash
            || command_of(r).kind is WrongUnknown),
        r == Ok::<SerialRequest, Error>(SerialRequest::StateCheck) <==> command_of(r).kind is StateCheck,
        (r matches Ok(SerialRequest::Dispense(_))) <==> command_of(r).kind is Dispense,
{
}

} // verus!
