//! The answer that belongs to a received request.
use vstd::prelude::*;
use crate::obdl1000_serial_request::SerialRequest;

verus! {

/// An answer, tied to the request it answers.
pub struct SerialAnswer {
    request: SerialRequest,
}

} // verus!
