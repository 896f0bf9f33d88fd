//! Device-tree installation for a firmware boot environment.
//!
//! The library verifies the logic of handing a flattened device tree to the
//! firmware before kernel handoff: converting byte lengths to firmware page
//! counts, negotiating buffer sizes with the firmware fixup capability
//! (including the single allowed grow-and-retry), guarding the
//! install/uninstall lifecycle, and capturing the running image's own
//! extent. The raw firmware calls themselves are performed by an unverified
//! driver, which feeds each outcome back into the verified state machine.

pub mod fdt_loader;
pub mod status;
pub mod uefi_helpers;
