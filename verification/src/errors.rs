//! Error taxonomy shared by the syscall drivers, and the result type a
//! command syscall hands back to a process.

use vstd::prelude::*;

verus! {

/// Errors surfaced to callers of the drivers.
///
/// `NoMem` models exhaustion of a driver-owned resource (a missing or empty
/// caller buffer, or single-owner exhaustion), not an allocator failure.
#[derive(Copy, Clone, Debug, PartialEq, Eq, Structural)]
pub enum ErrorCode {
    /// The resource is already committed to an operation.
    Busy,
    /// An argument (such as a channel index) is out of range.
    Inval,
    /// A required buffer is missing or empty, or ownership is exhausted.
    NoMem,
    /// The command or allow number is unknown, or the query is unsupported.
    NoSupport,
    /// The channel index names no device.
    NoDevice,
    /// The operation was attempted while the hardware is disabled.
    Off,
    /// Generic internal failure.
    Fail,
}

/// What a command syscall returns to the calling process.
#[derive(Copy, Clone, Debug, PartialEq, Eq, Structural)]
pub enum CommandReturn {
    Success,
    SuccessU32(u32),
    Failure(ErrorCode),
}

/// Result codes used by the random-number HIL.
#[derive(Copy, Clone, Debug, PartialEq, Eq, Structural)]
pub enum ReturnCode {
    Success,
    Fail,
    Busy,
    Off,
    Cancel,
    NoMem,
    NoSupport,
    NoDevice,
    Inval,
}

} // verus!
