//! The fixup negotiation: success, verbatim errors, the single
//! grow-and-retry, and the size checks around growth.

use linux_bootloader::fdt_loader::{
    grow_buffer, DTFixupFlags, FixupInvoker, FixupPhase, FixupStep, GrowthPlan,
};
use linux_bootloader::status::{FdtError, FixupStatus};
use linux_bootloader::uefi_helpers::{bytes_to_pages, UEFI_PAGE_MASK, UEFI_PAGE_SIZE};

#[test]
fn both_flags_are_always_requested_together() {
    let flags = DTFixupFlags::apply_and_reserve();
    assert_eq!(flags.bits, 3);
}

#[test]
fn success_on_first_call_installs_without_growth() {
    let mut invoker = FixupInvoker::new(100);
    let step = invoker.on_first_result(FixupStatus::Success, 100);
    assert_eq!(step, FixupStep::Installed);
    assert_eq!(invoker.phase, FixupPhase::Complete);
}

#[test]
fn generic_error_on_first_call_is_propagated_verbatim() {
    let code = 0x8000_0003usize;
    let mut invoker = FixupInvoker::new(100);
    let step = invoker.on_first_result(FixupStatus::Other(code), 100);
    assert_eq!(step, FixupStep::Failed(FdtError::Firmware(code)));
    assert_eq!(invoker.phase, FixupPhase::Complete);
}

#[test]
fn buffer_too_small_yields_the_growth_plan() {
    let original_len = 100usize;
    let required = 5000usize;
    let mut invoker = FixupInvoker::new(original_len);
    let step = invoker.on_first_result(FixupStatus::BufferTooSmall, required);
    let expected_pages = bytes_to_pages(required);
    assert_eq!(expected_pages, 2);
    assert_eq!(
        step,
        FixupStep::Grow(GrowthPlan {
            num_pages: expected_pages,
            new_size: expected_pages * UEFI_PAGE_SIZE,
            copy_len: original_len,
        })
    );
    assert_eq!(invoker.phase, FixupPhase::AwaitingRetryResult);
}

#[test]
fn grown_buffer_holds_exactly_the_original_bytes_then_padding() {
    let data: Vec<u8> = (0..100u8).map(|b| b.wrapping_mul(7)).collect();
    let mut invoker = FixupInvoker::new(data.len());
    let step = invoker.on_first_result(FixupStatus::BufferTooSmall, 5000);
    let plan = match step {
        FixupStep::Grow(plan) => plan,
        other => panic!("expected a growth plan, got {:?}", other),
    };
    assert_eq!(plan.copy_len, data.len());
    let grown = grow_buffer(&data, plan.new_size);
    assert_eq!(grown.len(), plan.new_size);
    assert_eq!(&grown[..data.len()], &data[..]);
    // After the grow, a successful retry completes the installation.
    let outcome = invoker.on_retry_result(FixupStatus::Success);
    assert_eq!(outcome, Ok(()));
    assert_eq!(invoker.phase, FixupPhase::Complete);
}

#[test]
fn buffer_too_small_twice_is_final() {
    let mut invoker = FixupInvoker::new(100);
    let step = invoker.on_first_result(FixupStatus::BufferTooSmall, 5000);
    assert!(matches!(step, FixupStep::Grow(_)));
    let outcome = invoker.on_retry_result(FixupStatus::BufferTooSmall);
    assert_eq!(outcome, Err(FdtError::BufferTooSmall));
    // The negotiation is complete: no further step, so no third allocation.
    assert_eq!(invoker.phase, FixupPhase::Complete);
}

#[test]
fn error_on_retry_is_propagated_verbatim() {
    let code = 0x8000_0007usize;
    let mut invoker = FixupInvoker::new(100);
    invoker.on_first_result(FixupStatus::BufferTooSmall, 5000);
    let outcome = invoker.on_retry_result(FixupStatus::Other(code));
    assert_eq!(outcome, Err(FdtError::Firmware(code)));
}

#[test]
fn required_size_too_large_to_round_up_fails() {
    let mut invoker = FixupInvoker::new(100);
    let step = invoker.on_first_result(FixupStatus::BufferTooSmall, usize::MAX);
    assert_eq!(step, FixupStep::Failed(FdtError::InvalidParameter));
    assert_eq!(invoker.phase, FixupPhase::Complete);

    let mut invoker = FixupInvoker::new(100);
    let step = invoker.on_first_result(FixupStatus::BufferTooSmall, usize::MAX - UEFI_PAGE_MASK + 1);
    assert_eq!(step, FixupStep::Failed(FdtError::InvalidParameter));
}

#[test]
fn required_size_smaller_than_the_blob_fails() {
    let mut invoker = FixupInvoker::new(10_000);
    let step = invoker.on_first_result(FixupStatus::BufferTooSmall, 1);
    assert_eq!(step, FixupStep::Failed(FdtError::InvalidParameter));
}

#[test]
fn grow_buffer_of_empty_blob_is_all_padding() {
    let data: Vec<u8> = Vec::new();
    let grown = grow_buffer(&data, 4096);
    assert_eq!(grown.len(), 4096);
}
