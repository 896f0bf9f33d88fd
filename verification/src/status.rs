//! Firmware statuses and the subsystem's errors.

use vstd::prelude::*;

verus! {

/// Outcome of one firmware fixup call, as the driver observes it.
#[derive(Clone, Copy, Debug, PartialEq, Eq, Structural)]
pub enum FixupStatus {
    /// The call succeeded; the buffer holds the fixed-up device tree.
    Success,
    /// The buffer was too small; the firmware wrote the required capacity
    /// back into the size slot.
    BufferTooSmall,
    /// Any other non-success status, carried as its raw status code.
    Other(usize),
}

/// Errors of the device-tree installation subsystem.
#[derive(Clone, Copy, Debug, PartialEq, Eq, Structural)]
pub enum FdtError {
    /// A non-success firmware status other than "buffer too small",
    /// propagated verbatim as its raw status code; never retried.
    Firmware(usize),
    /// The retried fixup call still found the buffer too small; the
    /// outcome of the single retry is final.
    BufferTooSmall,
    /// A size does not fit the platform's unsigned size representation,
    /// or the firmware's size answer is inconsistent with the blob.
    InvalidParameter,
    /// No fixup capability is present and the direct-install fallback is
    /// not provided.
    Unsupported,
}

} // verus!
