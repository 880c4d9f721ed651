//! Errors of sockets and system calls.

use vstd::prelude::*;

verus! {

/// Why a system call failed.
#[derive(Clone, Copy, Debug, PartialEq, Eq)]
pub enum IoError {
    /// The kernel refused the call with this `errno`.
    Os(i32),
    /// The call succeeded, but the kernel filled in a structure of this unknown size.
    UnexpectedOffsetsSize(usize),
}

/// A system call that failed.
#[derive(Clone, Copy, Debug, PartialEq, Eq)]
pub struct SyscallError {
    /// The name of the call.
    pub call: &'static str,
    /// Why it failed.
    pub io_error: IoError,
}

/// Errors that can occur while setting up or using an `AF_XDP` socket.
#[derive(Clone, Copy, Debug, PartialEq, Eq)]
pub enum XskError {
    /// A system call failed.
    Syscall(SyscallError),
    /// The UMEM memory is not page-aligned, not a whole number of frames, or `frame_size` is not
    /// a power of two in `2048..=page_size`.
    InvalidUmem,
    /// A ring size was not a non-zero power of two.
    InvalidRingSize,
    /// A frame index was outside the UMEM.
    FrameOutOfBounds(u32),
}

impl From<SyscallError> for XskError {
    fn from(error: SyscallError) -> (r: Self) {
        XskError::Syscall(error)
    }
}

impl vstd::std_specs::convert::FromSpecImpl<SyscallError> for XskError {
    open spec fn obeys_from_spec() -> bool {
        true
    }

    open spec fn from_spec(error: SyscallError) -> Self {
        XskError::Syscall(error)
    }
}

/// The error of a system call is kept as it is.
pub proof fn law_syscall_errors_are_kept(error: SyscallError)
    ensures
        <XskError as vstd::std_specs::convert::FromSpec<SyscallError>>::obeys_from_spec(),
        <XskError as vstd::std_specs::convert::FromSpec<SyscallError>>::from_spec(error)
            == XskError::Syscall(error),
{
}

} // verus!
