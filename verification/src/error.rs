//! Error taxonomy of the protocol core.

use vstd::prelude::*;

verus! {

/// A transport-level failure code, mirroring the failure classes the USB
/// host stack can report for open, claim, detach and transfer operations.
///
/// The unverified transport shell maps each host-stack error onto one of
/// these plain codes before handing it to the library.
#[derive(Clone, Copy, Debug, PartialEq, Eq, Structural)]
pub enum UsbErrorCode {
    /// Generic input/output failure.
    Io,
    /// A parameter was invalid.
    InvalidParam,
    /// Access denied (insufficient permissions).
    Access,
    /// The device is no longer attached.
    NoDevice,
    /// An entity was not found.
    NotFound,
    /// A resource is busy.
    Busy,
    /// The operation timed out.
    Timeout,
    /// A transfer overflowed.
    Overflow,
    /// A pipe error occurred.
    Pipe,
    /// A system call was interrupted.
    Interrupted,
    /// Memory allocation failed.
    NoMem,
    /// The operation is not supported on this platform.
    NotSupported,
    /// Any other failure.
    Other,
}

/// An error that occurs during usage of this library.
#[derive(Clone, Copy, Debug, PartialEq, Eq, Structural)]
pub enum Error {
    /// A USB driver or transport failure that can occur at any time while
    /// utilizing this library (open, claim, transfer, timeout).
    Usb(UsbErrorCode),
    /// A seemingly valid adapter was found, but its communication protocol
    /// could not be resolved: the descriptor walk found no interface with
    /// both an IN and an OUT endpoint.
    UnrecognizedProtocol,
    /// A transfer completed but was not exactly one packet long, likely due
    /// to a device or driver failure; its bytes are never parsed.
    InvalidPacket,
}

} // verus!
