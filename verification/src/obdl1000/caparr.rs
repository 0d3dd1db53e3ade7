//! The letter case of the answer and request packets, and the three-byte
//! core data built with it.
use vstd::prelude::*;

verus! {

/// An ASCII capital letter.
pub open spec fn is_upper(b: u8) -> bool {
    0x41 <= b <= 0x5A
}

/// An ASCII small letter.
pub open spec fn is_lower(b: u8) -> bool {
    0x61 <= b <= 0x7A
}

/// A byte in the requested case: a letter becomes a capital when `capital`
/// is set and a small letter otherwise; any other byte is kept.
pub open spec fn cap_spec(b: u8, capital: bool) -> u8 {
    if capital && is_lower(b) {
        (b - 0x20) as u8
    } else if !capital && is_upper(b) {
        (b + 0x20) as u8
    } else {
        b
    }
}

/// Puts one byte in the requested case.
pub fn cap_u8(b: u8, capital: bool) -> (r: u8)
    ensures
        r == cap_spec(b, capital),
{
    if capital && 0x61 <= b && b <= 0x7A {
        b - 0x20
    } else if !capital && 0x41 <= b && b <= 0x5A {
        b + 0x20
    } else {
        b
    }
}

/// Core data with all three bytes put in the requested case.
pub fn caparr_ttt(a0: u8, a1: u8, a2: u8, capital: bool) -> (r: [u8; 3])
    ensures
        r@ == seq![cap_spec(a0, capital), cap_spec(a1, capital), cap_spec(a2, capital)],
{
    let r = [cap_u8(a0, capital), cap_u8(a1, capital), cap_u8(a2, capital)];
    assert(r@ =~= seq![cap_spec(a0, capital), cap_spec(a1, capital), cap_spec(a2, capital)]);
    r
}

/// Core data with the first two bytes put in the requested case and the last
/// one kept.
pub fn caparr_ttd(a0: u8, a1: u8, a2: u8, capital: bool) -> (r: [u8; 3])
    ensures
        r@ == seq![cap_spec(a0, capital), cap_spec(a1, capital), a2],
{
    let r = [cap_u8(a0, capital), cap_u8(a1, capital), a2];
    assert(r@ =~= seq![cap_spec(a0, capital), cap_spec(a1, capital), a2]);
    r
}

/// Core data with only the first byte put in the requested case.
pub fn caparr_tdd(a0: u8, a1: u8, a2: u8, capital: bool) -> (r: [u8; 3])
    ensures
        r@ == seq![cap_spec(a0, capital), a1, a2],
{
    let r = [cap_u8(a0, capital), a1, a2];
    assert(r@ =~= seq![cap_spec(a0, capital), a1, a2]);
    r
}

/// Core data with the first and the last byte put in the requested case and
/// the middle one kept.
pub fn caparr_tdt(a0: u8, a1: u8, a2: u8, capital: bool) -> (r: [u8; 3])
    ensures
        r@ == seq![cap_spec(a0, capital), a1, cap_spec(a2, capital)],
{
    let r = [cap_u8(a0, capital), a1, cap_u8(a2, capital)];
    assert(r@ =~= seq![cap_spec(a0, capital), a1, cap_spec(a2, capital)]);
    r
}

/// A letter comes out as the capital or the small form of the same letter,
/// as requested, and any other byte is left as it is.
pub proof fn lemma_case_of_letters(b: u8)
    ensures
        is_upper(b) || is_lower(b) ==> is_upper(cap_spec(b, true)) && is_lower(cap_spec(b, false)),
        is_upper(b) ==> cap_spec(b, true) == b && cap_spec(b, false) == b + 0x20,
        is_lower(b) ==> cap_spec(b, false) == b && cap_spec(b, true) == b - 0x20,
        !is_upper(b) && !is_lower(b) ==> cap_spec(b, true) == b && cap_spec(b, false) == b,
{
}

} // verus!
