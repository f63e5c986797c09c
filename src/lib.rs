// Session logic of a challenge server: a client submits a compiled module, the server
// deploys the challenge and the solution, drives the challenge and reports the outcome.
//
// `session` is the protocol state machine, `wire` builds the bytes sent to and read from
// the client, and `laws` proves properties that hold across steps and sessions.

pub mod laws;
pub mod session;
pub mod wire;
