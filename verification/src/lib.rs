//! Protocol logic of a parallel-to-serial adapter for a paper dispenser:
//! the serial request frames, the state and error answers, the parallel
//! error pulse timing, and the decisions of the firmware's interrupt tasks.

pub mod obdl1000;
pub mod obdl1000_error;
pub mod obdl1000_serial_answer;
pub mod obdl1000_serial_request;
pub mod obdl1000_state;
pub mod tasks;
