//! Page arithmetic and the loaded-image extent.

use vstd::arithmetic::div_mod::{
    lemma_fundamental_div_mod, lemma_mod_division_less_than_divisor,
};
use vstd::prelude::*;

use crate::status::FdtError;

verus! {

/// UEFI mandates 4 KiB pages: pages are `1 << UEFI_PAGE_BITS` bytes.
pub const UEFI_PAGE_BITS: usize = 12;

/// Low bits selecting a byte within one page: `(1 << UEFI_PAGE_BITS) - 1`.
pub const UEFI_PAGE_MASK: usize = 4095;

/// Size of one firmware page in bytes: `1 << UEFI_PAGE_BITS`.
pub const UEFI_PAGE_SIZE: usize = 4096;

/// Number of whole pages needed to hold `len` bytes: `len / page size`,
/// rounded up.
pub open spec fn spec_pages_needed(len: nat) -> nat {
    (len + (UEFI_PAGE_MASK as nat)) / (UEFI_PAGE_SIZE as nat)
}

/// The page count `bytes_to_pages` saturates to when rounding a byte length
/// up to the page boundary would leave the representable range: one page
/// more than the largest representable length occupies.
pub open spec fn spec_max_page_count() -> nat {
    usize::MAX as nat / (UEFI_PAGE_SIZE as nat) + 1
}

/// Converts a length in bytes to the number of required pages.
///
/// Rounds up to the next whole page. A length within one page mask of
/// `usize::MAX` saturates to the maximum representable page count rather
/// than wrapping or failing.
pub fn bytes_to_pages(bytes: usize) -> (pages: usize)
    ensures
        bytes + UEFI_PAGE_MASK <= usize::MAX ==> pages == spec_pages_needed(bytes as nat),
        bytes + UEFI_PAGE_MASK > usize::MAX ==> pages == spec_max_page_count(),
{
    if bytes <= usize::MAX - UEFI_PAGE_MASK {
        (bytes + UEFI_PAGE_MASK) / UEFI_PAGE_SIZE
    } else {
        proof {
            lemma_div_max_page_count_fits();
        }
        usize::MAX / UEFI_PAGE_SIZE + 1
    }
}

/// The saturated page count fits in `usize`.
proof fn lemma_div_max_page_count_fits()
    ensures
        spec_max_page_count() <= usize::MAX,
{
    lemma_fundamental_div_mod(usize::MAX as int, UEFI_PAGE_SIZE as int);
    lemma_mod_division_less_than_divisor(usize::MAX as int, UEFI_PAGE_SIZE as int);
}

/// Coverage: `spec_pages_needed(len)` pages always hold `len` bytes.
pub proof fn lemma_pages_needed_covers(len: nat)
    ensures
        spec_pages_needed(len) * UEFI_PAGE_SIZE >= len,
{
    lemma_fundamental_div_mod((len + UEFI_PAGE_MASK) as int, UEFI_PAGE_SIZE as int);
    lemma_mod_division_less_than_divisor((len + UEFI_PAGE_MASK) as int, UEFI_PAGE_SIZE as int);
}

/// Tightness: rounding up adds less than one whole page.
pub proof fn lemma_pages_needed_tight(len: nat)
    ensures
        spec_pages_needed(len) * UEFI_PAGE_SIZE <= len + UEFI_PAGE_MASK,
{
    lemma_fundamental_div_mod((len + UEFI_PAGE_MASK) as int, UEFI_PAGE_SIZE as int);
    lemma_mod_division_less_than_divisor((len + UEFI_PAGE_MASK) as int, UEFI_PAGE_SIZE as int);
}

/// Minimality: no smaller page count holds `len` bytes.
pub proof fn lemma_pages_needed_minimal(len: nat, count: nat)
    requires
        count * UEFI_PAGE_SIZE >= len,
    ensures
        count >= spec_pages_needed(len),
{
    lemma_fundamental_div_mod((len + UEFI_PAGE_MASK) as int, UEFI_PAGE_SIZE as int);
    lemma_mod_division_less_than_divisor((len + UEFI_PAGE_MASK) as int, UEFI_PAGE_SIZE as int);
    if count < spec_pages_needed(len) {
        assert(count * UEFI_PAGE_SIZE <= (spec_pages_needed(len) - 1) * UEFI_PAGE_SIZE)
            by (nonlinear_arith)
            requires
                count <= spec_pages_needed(len) - 1,
        ;
    }
}

/// Saturation still covers: the saturated count spans every representable
/// byte length.
pub proof fn lemma_max_page_count_covers(len: usize)
    ensures
        spec_max_page_count() * UEFI_PAGE_SIZE >= len,
{
    lemma_fundamental_div_mod(usize::MAX as int, UEFI_PAGE_SIZE as int);
    lemma_mod_division_less_than_divisor(usize::MAX as int, UEFI_PAGE_SIZE as int);
}

/// Saturation is still minimal: for a byte length in the range where
/// `bytes_to_pages` saturates, no count below the saturated one holds
/// `len` bytes either.
pub proof fn lemma_max_page_count_minimal(len: usize, count: nat)
    requires
        len + UEFI_PAGE_MASK > usize::MAX,
        count * UEFI_PAGE_SIZE >= len,
    ensures
        count >= spec_max_page_count(),
{
    assert(usize::MAX == 0xFFFF_FFFFusize as nat || usize::MAX == 0xFFFF_FFFF_FFFF_FFFFu64
        as nat);
    assert(usize::MAX as nat % (UEFI_PAGE_SIZE as nat) == UEFI_PAGE_MASK as nat);
    lemma_fundamental_div_mod(usize::MAX as int, UEFI_PAGE_SIZE as int);
    if count < spec_max_page_count() {
        assert(count * UEFI_PAGE_SIZE <= (spec_max_page_count() - 1) * UEFI_PAGE_SIZE)
            by (nonlinear_arith)
            requires
                count <= spec_max_page_count() - 1,
        ;
    }
}

/// The currently running program image: its loaded base address and byte
/// length, as the firmware reports them. Read-only; the extent aliases the
/// executing image itself.
#[derive(Debug, Clone, Copy)]
pub struct PeInMemory {
    image_base: usize,
    image_size: usize,
}

impl PeInMemory {
    /// Base address of the loaded image.
    pub closed spec fn spec_base(self) -> usize {
        self.image_base
    }

    /// Byte length of the loaded image.
    pub closed spec fn spec_size(self) -> usize {
        self.image_size
    }

    /// Capture the firmware's loaded-image report: the image's base address
    /// and its reported byte length. A reported length that does not fit
    /// the platform's unsigned size type is an invalid parameter.
    pub fn from_image_info(image_base: usize, image_size: u64) -> (r: Result<PeInMemory, FdtError>)
        ensures
            image_size <= usize::MAX ==> (r matches Ok(pe) && pe.spec_base() == image_base
                && pe.spec_size() == image_size),
            image_size > usize::MAX ==> r == Err::<PeInMemory, FdtError>(FdtError::InvalidParameter),
    {
        if image_size <= usize::MAX as u64 {
            Ok(PeInMemory { image_base, image_size: image_size as usize })
        } else {
            Err(FdtError::InvalidParameter)
        }
    }

    /// Base address of the loaded image.
    pub fn base(&self) -> (r: usize)
        ensures
            r == self.spec_base(),
    {
        self.image_base
    }

    /// Byte length of the loaded image.
    pub fn size(&self) -> (r: usize)
        ensures
            r == self.spec_size(),
    {
        self.image_size
    }
}

} // verus!
