//! Result types of the syscall-facing interface.

use vstd::prelude::*;

verus! {

/// The error taxonomy of the driver. Every failure is reported synchronously
/// to the requesting process as one of these kinds.
#[derive(Clone, Copy, Debug, PartialEq, Eq, Structural)]
pub enum ErrorCode {
    /// A channel index outside the configured range.
    InvalidArgument,
    /// The peripheral is currently dedicated to another process.
    ResourceBusy,
    /// An unknown command code or subscription slot.
    Unsupported,
    /// The requesting process's state record could not be entered.
    NoMemory,
}

/// The outcome of a command request, as handed back to the syscall layer.
#[derive(Clone, Copy, Debug, PartialEq, Eq, Structural)]
pub enum CommandReturn {
    /// The command completed with no payload.
    Success,
    /// The command completed and carries a 32-bit value.
    SuccessU32(u32),
    /// The command failed with the given error kind.
    Failure(ErrorCode),
}

} // verus!
