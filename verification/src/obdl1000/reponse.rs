//! The answer that belongs to a request.
use vstd::prelude::*;
use crate::obdl1000::request::Request;

verus! {

/// An answer, tied to the request it answers.
pub struct Reponse {
    request: Request,
}

} // verus!
