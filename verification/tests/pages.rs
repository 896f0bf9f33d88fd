//! Page arithmetic: rounding up, the empty length, and saturation.

use linux_bootloader::uefi_helpers::{
    bytes_to_pages, UEFI_PAGE_BITS, UEFI_PAGE_MASK, UEFI_PAGE_SIZE,
};

#[test]
fn page_constants_are_consistent() {
    assert_eq!(UEFI_PAGE_SIZE, 1usize << UEFI_PAGE_BITS);
    assert_eq!(UEFI_PAGE_MASK, UEFI_PAGE_SIZE - 1);
    assert_eq!(UEFI_PAGE_SIZE, 4096);
}

#[test]
fn zero_bytes_need_zero_pages() {
    assert_eq!(bytes_to_pages(0), 0);
}

#[test]
fn small_lengths_round_up() {
    assert_eq!(bytes_to_pages(1), 1);
    assert_eq!(bytes_to_pages(4095), 1);
    assert_eq!(bytes_to_pages(4096), 1);
    assert_eq!(bytes_to_pages(4097), 2);
    assert_eq!(bytes_to_pages(10_000), 3);
}

#[test]
fn page_count_covers_and_is_minimal() {
    for len in [1usize, 7, 4095, 4096, 4097, 123_456, 1 << 30] {
        let pages = bytes_to_pages(len);
        assert!(pages * UEFI_PAGE_SIZE >= len);
        assert!((pages - 1) * UEFI_PAGE_SIZE < len);
    }
}

#[test]
fn near_overflow_saturates_to_max_page_count() {
    let max_count = usize::MAX / UEFI_PAGE_SIZE + 1;
    assert_eq!(bytes_to_pages(usize::MAX), max_count);
    assert_eq!(bytes_to_pages(usize::MAX - UEFI_PAGE_MASK + 1), max_count);
    // The last length whose rounding still fits is one page mask below the top.
    assert_eq!(bytes_to_pages(usize::MAX - UEFI_PAGE_MASK), usize::MAX / UEFI_PAGE_SIZE);
    // The saturated count still covers every representable length.
    assert!((max_count as u128) * (UEFI_PAGE_SIZE as u128) >= usize::MAX as u128);
}
