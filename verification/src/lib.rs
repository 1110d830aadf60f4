//! Packaging and device-upload pipeline for a small embedded controller.
//!
//! The library covers the logic of the pipeline: discovering source modules,
//! deciding which are stale, packaging compiled artifacts into the binary
//! program table, resolving a runtime image, and driving one device session
//! (link classification, radio-channel negotiation, checksum-based upload
//! decisions and the ordered transfer plan). All I/O — filesystem walks,
//! the compiler subprocess, the serial link, network fetches — is done by a
//! thin unverified shell that hands this library plain values.

use vstd::prelude::*;

pub mod builder;
pub mod device;
pub mod errors;
pub mod manifest;
pub mod orchestrate;
pub mod runtime;
pub mod scan;
pub mod table;
pub mod util;
pub mod version;

verus! {

/// Identifies program tables produced by this tool; the first header word.
pub const VENDOR_ID: u32 = 0x11235813;

} // verus!
