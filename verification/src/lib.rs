//! Accounting and decision core of a bulk login prober.
//!
//! One attempt is made per target host. Each attempt walks a small state
//! machine (address, transport connect, protocol handshake) and settles in
//! exactly one outcome. Settled outcomes feed a counter and an append-only
//! log, and a closing summary reports the totals.
//!
//! The library decides and accounts; sockets, files, clocks and the task pool
//! belong to the program around it.

pub mod outcome;
pub mod counter;
pub mod text;
pub mod log;
pub mod attempt;
pub mod handshake;
pub mod report;
pub mod console;
pub mod targets;
