//! Status-panel core: a JSON command bridge between an embedded UI and the
//! native host, a refreshable cache of host telemetry, and a registry that
//! tracks which displays already own a panel.
use vstd::prelude::*;

pub mod ipc;
pub mod json_text;
pub mod monitors;
pub mod providers;
pub mod ui_bridge;

verus! {

/// The background refresh cadence in milliseconds: one shared provider is
/// refreshed on this fixed interval for the lifetime of the process,
/// independently of any panel.
pub const REFRESH_INTERVAL_MS: u64 = 2000;

} // verus!
