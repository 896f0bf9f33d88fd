//! The fixup negotiation and the install/uninstall lifecycle guard.

use vstd::prelude::*;

use crate::status::{FdtError, FixupStatus};
use crate::uefi_helpers::{bytes_to_pages, spec_pages_needed, UEFI_PAGE_MASK, UEFI_PAGE_SIZE};

verus! {

/// Requests machine-specific fixups (serial numbers, MAC addresses, ...).
pub const APPLY_FIXUPS: u32 = 1;

/// Requests that the firmware reserve the memory the tree describes.
pub const RESERVE_MEMORY: u32 = 2;

/// Fixup flags of the device-tree fixup capability: a pair of bits that
/// this subsystem always requests together.
#[derive(Clone, Copy, Debug, PartialEq, Eq, Structural)]
pub struct DTFixupFlags {
    pub bits: u32,
}

impl DTFixupFlags {
    /// Both flags at once: the only combination ever requested, since no
    /// caller needs partial fixup behavior.
    pub fn apply_and_reserve() -> (r: DTFixupFlags)
        ensures
            r.bits == 3,
    {
        proof {
            assert((1u32 | 2u32) == 3u32) by (bit_vector);
        }
        DTFixupFlags { bits: APPLY_FIXUPS | RESERVE_MEMORY }
    }
}

/// Where the fixup negotiation stands.
#[derive(Clone, Copy, Debug, PartialEq, Eq, Structural)]
pub enum FixupPhase {
    /// The first fixup call has been requested; its outcome is awaited.
    AwaitingFirstResult,
    /// The buffer was grown; the outcome of the single retry is awaited.
    AwaitingRetryResult,
    /// The negotiation is over, successfully or not.
    Complete,
}

/// What the driver must do after a first "buffer too small" outcome:
/// allocate `num_pages` firmware pages (platform-reserved, non-volatile,
/// any address), copy the first `copy_len` bytes of the old buffer into the
/// new region, release the old buffer, and retry the fixup call once with
/// `new_size` as the buffer size.
#[derive(Clone, Copy, Debug, PartialEq, Eq, Structural)]
pub struct GrowthPlan {
    /// Pages to allocate from the firmware; the allocation is never
    /// released by this subsystem.
    pub num_pages: usize,
    /// The new buffer size: `num_pages` whole pages, in bytes.
    pub new_size: usize,
    /// Exactly the blob's occupied length is copied; bytes beyond it are
    /// firmware-provided padding, not initialized by the copy.
    pub copy_len: usize,
}

/// The step the negotiation takes after a fixup call's outcome.
#[derive(Clone, Copy, Debug, PartialEq, Eq, Structural)]
pub enum FixupStep {
    /// The device tree is fixed up and installed; nothing more to do.
    Installed,
    /// The negotiation failed; the error is final.
    Failed(FdtError),
    /// Grow the buffer and retry, exactly once.
    Grow(GrowthPlan),
}

/// Rounding the firmware's required size up to a whole page count would
/// leave the representable range.
pub open spec fn grow_size_overflows(reported_size: usize) -> bool {
    reported_size + UEFI_PAGE_MASK > usize::MAX
}

/// The grown buffer could not even hold the blob's current bytes: the
/// firmware's size answer is inconsistent with the negotiation.
pub open spec fn grow_size_inconsistent(reported_size: usize, original_len: usize) -> bool {
    spec_pages_needed(reported_size as nat) * UEFI_PAGE_SIZE < original_len
}

/// The decision core of the fixup negotiation, with its single
/// grow-and-retry.
///
/// The driver issues the raw fixup calls and allocations; this machine is
/// fed each call's outcome and answers with the next step. Its phases make
/// more than one growth retry impossible: a grow step is only ever taken
/// from the first call's outcome.
pub struct FixupInvoker {
    /// Where the negotiation stands.
    pub phase: FixupPhase,
    /// The blob's occupied byte length when the negotiation started.
    pub original_len: usize,
}

impl FixupInvoker {
    /// Start a negotiation for a blob currently holding `original_len`
    /// bytes. The driver's first action is the fixup call itself, with the
    /// blob's buffer, `original_len` as the size argument, and both flags.
    pub fn new(original_len: usize) -> (r: FixupInvoker)
        ensures
            r.phase == FixupPhase::AwaitingFirstResult,
            r.original_len == original_len,
    {
        FixupInvoker { phase: FixupPhase::AwaitingFirstResult, original_len }
    }

    /// Interpret the outcome of the first fixup call.
    ///
    /// `reported_size` is what the bidirectional size slot holds after the
    /// call; on a "buffer too small" status the firmware wrote the required
    /// capacity there. Success installs; any other error is propagated
    /// verbatim with no retry; "buffer too small" yields the growth plan,
    /// unless rounding the required size to whole pages overflows or the
    /// grown buffer could not hold the blob's bytes, which are
    /// invalid-parameter failures.
    pub fn on_first_result(&mut self, status: FixupStatus, reported_size: usize) -> (step:
        FixupStep)
        requires
            old(self).phase == FixupPhase::AwaitingFirstResult,
        ensures
            final(self).original_len == old(self).original_len,
            status is Success ==> step == FixupStep::Installed && final(self).phase
                == FixupPhase::Complete,
            status matches FixupStatus::Other(code) ==> step == FixupStep::Failed(
                FdtError::Firmware(code),
            ) && final(self).phase == FixupPhase::Complete,
            status is BufferTooSmall && (grow_size_overflows(reported_size)
                || grow_size_inconsistent(reported_size, old(self).original_len)) ==> step
                == FixupStep::Failed(FdtError::InvalidParameter) && final(self).phase
                == FixupPhase::Complete,
            status is BufferTooSmall && !grow_size_overflows(reported_size)
                && !grow_size_inconsistent(reported_size, old(self).original_len) ==> {
                &&& step matches FixupStep::Grow(plan)
                &&& plan.num_pages == spec_pages_needed(reported_size as nat)
                &&& plan.new_size == plan.num_pages * UEFI_PAGE_SIZE
                &&& plan.new_size >= reported_size
                &&& plan.copy_len == old(self).original_len
                &&& final(self).phase == FixupPhase::AwaitingRetryResult
            },
    {
        match status {
            FixupStatus::Success => {
                self.phase = FixupPhase::Complete;
                FixupStep::Installed
            },
            FixupStatus::Other(code) => {
                self.phase = FixupPhase::Complete;
                FixupStep::Failed(FdtError::Firmware(code))
            },
            FixupStatus::BufferTooSmall => {
                if reported_size > usize::MAX - UEFI_PAGE_MASK {
                    self.phase = FixupPhase::Complete;
                    FixupStep::Failed(FdtError::InvalidParameter)
                } else {
                    let num_pages = bytes_to_pages(reported_size);
                    proof {
                        crate::uefi_helpers::lemma_pages_needed_tight(reported_size as nat);
                        crate::uefi_helpers::lemma_pages_needed_covers(reported_size as nat);
                    }
                    let new_size = num_pages * UEFI_PAGE_SIZE;
                    if new_size < self.original_len {
                        self.phase = FixupPhase::Complete;
                        FixupStep::Failed(FdtError::InvalidParameter)
                    } else {
                        self.phase = FixupPhase::AwaitingRetryResult;
                        FixupStep::Grow(
                            GrowthPlan { num_pages, new_size, copy_len: self.original_len },
                        )
                    }
                }
            },
        }
    }

    /// Interpret the outcome of the retried fixup call. Whatever it is, the
    /// negotiation is over: success installs, "buffer too small" is final
    /// this time, and any other status is propagated verbatim.
    pub fn on_retry_result(&mut self, status: FixupStatus) -> (r: Result<(), FdtError>)
        requires
            old(self).phase == FixupPhase::AwaitingRetryResult,
        ensures
            final(self).phase == FixupPhase::Complete,
            final(self).original_len == old(self).original_len,
            status is Success ==> r == Ok::<(), FdtError>(()),
            status is BufferTooSmall ==> r == Err::<(), FdtError>(FdtError::BufferTooSmall),
            status matches FixupStatus::Other(code) ==> r == Err::<(), FdtError>(
                FdtError::Firmware(code),
            ),
    {
        self.phase = FixupPhase::Complete;
        match status {
            FixupStatus::Success => Ok(()),
            FixupStatus::BufferTooSmall => Err(FdtError::BufferTooSmall),
            FixupStatus::Other(code) => Err(FdtError::Firmware(code)),
        }
    }
}

/// Build the contents of the grown buffer: exactly the blob's bytes first,
/// then padding up to `new_size`. A driver working on ordinary memory uses
/// this for the growth plan's copy step; the padding stands for the bytes
/// the firmware may later fill.
pub fn grow_buffer(old_data: &Vec<u8>, new_size: usize) -> (r: Vec<u8>)
    requires
        old_data.len() <= new_size,
    ensures
        r.len() == new_size,
        forall|i: int| 0 <= i < old_data.len() ==> r[i] == old_data[i],
{
    let mut r: Vec<u8> = Vec::new();
    let mut i: usize = 0;
    while i < old_data.len()
        invariant
            i <= old_data.len(),
            r.len() == i,
            forall|j: int| 0 <= j < i ==> r[j] == old_data[j],
        decreases old_data.len() - i,
    {
        r.push(old_data[i]);
        i += 1;
    }
    while r.len() < new_size
        invariant
            old_data.len() <= r.len() <= new_size,
            forall|j: int| 0 <= j < old_data.len() ==> r[j] == old_data[j],
        decreases new_size - r.len(),
    {
        r.push(0u8);
    }
    r
}

/// Direct installation without fixup: the extension point for platforms
/// that expose no fixup capability. Not provided here; it fails explicitly
/// rather than report success without registering the blob.
pub fn install_fdt(_fdt_data: Vec<u8>) -> (r: Result<(), FdtError>)
    ensures
        r == Err::<(), FdtError>(FdtError::Unsupported),
{
    Err(FdtError::Unsupported)
}

/// The installation route construction takes.
#[derive(Clone, Copy, Debug, PartialEq, Eq, Structural)]
pub enum InstallRoute {
    /// The firmware exposes the fixup capability: run the negotiation.
    Fixup,
    /// No fixup capability: install the blob directly, without
    /// augmentation.
    Direct,
}

/// Guards the installed device tree. It must be uninstalled exactly once,
/// before it is disposed of; both misuses are caller defects, excluded by
/// contract rather than reported as errors.
pub struct FdtLoader {
    handle: usize,
    set: bool,
}

impl FdtLoader {
    /// Whether the loader still holds an installed device tree.
    pub closed spec fn installed(self) -> bool {
        self.set
    }

    /// The handle the loader was created for.
    pub closed spec fn spec_handle(self) -> usize {
        self.handle
    }

    /// Which route construction takes: the fixup negotiation when the
    /// firmware exposes the capability, the direct fallback otherwise.
    pub fn choose_route(has_fixup_capability: bool) -> (r: InstallRoute)
        ensures
            has_fixup_capability ==> r == InstallRoute::Fixup,
            !has_fixup_capability ==> r == InstallRoute::Direct,
    {
        if has_fixup_capability {
            InstallRoute::Fixup
        } else {
            InstallRoute::Direct
        }
    }

    /// Finish construction for `handle` from the outcome of the chosen
    /// installation route. Success yields an installed loader; an error is
    /// passed through exactly.
    pub fn new(handle: usize, install_outcome: Result<(), FdtError>) -> (r: Result<
        FdtLoader,
        FdtError,
    >)
        ensures
            install_outcome is Ok ==> (r matches Ok(loader) && loader.installed()
                && loader.spec_handle() == handle),
            install_outcome matches Err(e) ==> r == Err::<FdtLoader, FdtError>(e),
    {
        match install_outcome {
            Ok(()) => Ok(FdtLoader { handle, set: true }),
            Err(e) => Err(e),
        }
    }

    /// Whether the device tree is still installed.
    pub fn is_installed(&self) -> (r: bool)
        ensures
            r == self.installed(),
    {
        self.set
    }

    /// Remove the device tree from the firmware's configuration. Must be
    /// called exactly once while installed: calling it again is a caller
    /// defect, excluded by the precondition.
    pub fn uninstall(&mut self) -> (r: Result<(), FdtError>)
        requires
            old(self).installed(),
        ensures
            !final(self).installed(),
            final(self).spec_handle() == old(self).spec_handle(),
            r == Ok::<(), FdtError>(()),
    {
        self.set = false;
        Ok(())
    }

    /// End of life. Disposing of a loader that is still installed is a
    /// caller defect, excluded by the precondition: uninstall first, at the
    /// point the caller chooses relative to kernel handoff.
    pub fn dispose(self)
        requires
            !self.installed(),
    {
    }
}

} // verus!
