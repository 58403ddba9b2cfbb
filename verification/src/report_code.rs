//! Telemetry report codes, all defined in one place.
//!
//! Ranges: `PGR-0xxx` lifecycle, `PGR-1xxx` panics, `PGR-2xxx` backend
//! defects, `PGR-4xxx` overlay defects, `PGR-5xxx` command defects.

use vstd::prelude::*;

verus! {

/// Startup statistics event.
pub const APP_STARTUP: &'static str = "PGR-0001";
/// Developer-mode test report.
pub const TEST_REPORT: &'static str = "PGR-0901";
/// Rust panic record.
pub const RUST_PANIC: &'static str = "PGR-1001";
/// Configuration file I/O error.
pub const CONFIG_IO: &'static str = "PGR-2101";
/// Image file I/O error.
pub const IMAGE_IO: &'static str = "PGR-2102";
/// External call error.
pub const EXTERNAL_CALL: &'static str = "PGR-2401";
/// Bridge layer failure.
pub const TAURI_BRIDGE: &'static str = "PGR-2501";
/// Overlay render error.
pub const OVERLAY_RENDER: &'static str = "PGR-4101";
/// Overlay resize error.
pub const OVERLAY_RESIZE: &'static str = "PGR-4102";
/// Window style setup error.
pub const WIN32_SETUP: &'static str = "PGR-4201";
/// Target window follow error.
pub const WIN32_FOLLOW: &'static str = "PGR-4202";
/// Configuration operation error.
pub const CONFIG_OP: &'static str = "PGR-5101";
/// Layer operation error.
pub const LAYER_OP: &'static str = "PGR-5102";
/// Overlay operation error.
pub const OVERLAY_OP: &'static str = "PGR-5103";
/// Update operation error.
pub const UPDATE_OP: &'static str = "PGR-5104";
/// Telemetry operation error.
pub const TELEMETRY_OP: &'static str = "PGR-5105";
/// Metadata getter error.
pub const META_OP: &'static str = "PGR-5106";

} // verus!
