//! Decision logic of a launcher that supervises one local web-service process.
//!
//! Every operation that touches the operating system (running the runtime,
//! connecting to a TCP port, spawning, signalling, sleeping, reading the clock)
//! is left to the caller. The library is the other half: a small state machine
//! per component that says which of these to do next and takes what came of it.
//! A driver asks a machine for its pending action, performs it, and hands the
//! result back with `step`, until the machine reports that it is done.

pub mod launch;
pub mod ports;
pub mod precheck;
pub mod readiness;
pub mod shutdown;
pub mod start;
pub mod supervisor;
pub mod timing;
