//! Capability tokens that gate restricted kernel operations.
//!
//! Holding a value of one of these types stands for the board's decision
//! to let the holder call the operation it names; ordinary driver code is
//! simply never handed one.

use vstd::prelude::*;

verus! {

/// Permits calling the main kernel loop.
pub struct MainLoopCapability {}

/// Permits creating grants during board initialisation.
pub struct MemoryAllocationCapability {}

/// Permits managing processes (e.g. faulting all of them).
pub struct ProcessManagementCapability {}

/// Permits external process implementations to adjust kernel work
/// bookkeeping and read the grant count.
pub struct ExternalProcessCapability {}

} // verus!
