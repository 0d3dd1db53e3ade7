# papout_psm

Protocol logic of a parallel-to-serial adapter for a paper dispenser
(STM32G030 firmware), written in Verus.

- `src/obdl1000/`: the letter case of packet bytes (`caparr`), error codes
  and their serial and parallel encodings (`error_code`), dispenser states
  (`state_code`), and requests with their answers (`request`).
- `src/obdl1000_error.rs`, `src/obdl1000_serial_request.rs`,
  `src/obdl1000_state.rs`, `src/obdl1000_serial_answer.rs`: the error pulse
  decoder, the request frame decoder, and the state answer.
- `src/tasks.rs`: the decisions of the firmware's interrupt tasks (frame
  assembly from received bytes, packet framing, pulse output, input edges,
  tick).
- `app/main.rs`: the RTIC firmware that drives the hardware and calls the
  library.
- `tests/`: concrete scenarios for the library.
