//! Ownership arbitration and command dispatch for a small set of analog
//! comparator channels shared among untrusted processes.
//!
//! The arbiter owns a fixed list of channels, tracks the single process that
//! currently holds the peripheral, validates and dispatches command requests
//! into the hardware, and routes asynchronous hardware events back to the
//! owner's registered callback.

pub mod arbiter;
pub mod grant;
pub mod syscall;
pub mod upcall;
