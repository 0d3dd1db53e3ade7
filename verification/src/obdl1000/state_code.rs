//! Dispenser states and the core data of the state answer.
use vstd::prelude::*;
use crate::obdl1000::caparr::{cap_spec, caparr_tdt, caparr_ttd, caparr_ttt};

verus! {

/// The state of the dispenser; the two result states carry the number of
/// sheets of the last dispense.
#[derive(Copy, Clone, Debug, PartialEq, Eq, Structural)]
pub enum StateCode {
    Idle,
    WhileDispensing,
    ActionHalted,
    SuccessDispense(u8),
    ProblemDispense(u8),
}

impl StateCode {
    /// The core data of the state answer: `S` then `TB` (idle), `ON`
    /// (dispensing), `H!` (halted), the count and `O` (success) or the count
    /// and `N` (problem); letters are in the requested case, `!` and the count
    /// are not.
    pub open spec fn core_data(self, capital: bool) -> Seq<u8> {
        match self {
            StateCode::Idle => seq![cap_spec(0x53, capital), cap_spec(0x54, capital), cap_spec(0x42, capital)],
            StateCode::WhileDispensing => seq![cap_spec(0x53, capital), cap_spec(0x4F, capital), cap_spec(0x4E, capital)],
            StateCode::ActionHalted => seq![cap_spec(0x53, capital), cap_spec(0x48, capital), 0x21u8],
            StateCode::SuccessDispense(x) => seq![cap_spec(0x53, capital), x, cap_spec(0x4F, capital)],
            StateCode::ProblemDispense(x) => seq![cap_spec(0x53, capital), x, cap_spec(0x4E, capital)],
        }
    }

    /// Builds the core data of the state answer.
    pub fn to_core_data(&self, capital: bool) -> (r: [u8; 3])
        ensures
            r@ == self.core_data(capital),
    {
        match self {
            // "STB"
            StateCode::Idle => caparr_ttt(0x53, 0x54, 0x42, capital),
            // "SON"
            StateCode::WhileDispensing => caparr_ttt(0x53, 0x4F, 0x4E, capital),
            // "SH!"
            StateCode::ActionHalted => caparr_ttd(0x53, 0x48, 0x21, capital),
            // 'S', count, 'O'
            StateCode::SuccessDispense(x) => caparr_tdt(0x53, *x, 0x4F, capital),
            // 'S', count, 'N'
            StateCode::ProblemDispense(x) => caparr_tdt(0x53, *x, 0x4E, capital),
        }
    }
}

/// The two result states report their sheet count unchanged in either case,
/// between `S` and `O` (success) or `N` (problem).
pub proof fn lemma_result_state_keeps_count(n: u8, capital: bool)
    ensures
        StateCode::SuccessDispense(n).core_data(capital) == seq![
            if capital { 0x53u8 } else { 0x73u8 }, n, if capital { 0x4Fu8 } else { 0x6Fu8 }],
        StateCode::ProblemDispense(n).core_data(capital) == seq![
            if capital { 0x53u8 } else { 0x73u8 }, n, if capital { 0x4Eu8 } else { 0x6Eu8 }],
{
}

} // verus!
