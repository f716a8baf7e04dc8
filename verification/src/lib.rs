//! Verified core of a process-injected interception shim.
//!
//! The library holds the decision logic of the shim: parsing the startup
//! flags, the one-time attach state machine, the two-phase detour lifecycle,
//! the once-only runtime slot, the interception bridge's argument forwarding,
//! and the crash-notice text.  The thin native layer around it (module
//! loading, console allocation, the actual byte patching) performs the
//! actions this library decides on and hands the outcomes back.

pub mod bridge;
pub mod detour;
pub mod flags;
pub mod guard;
pub mod report;
pub mod runtime;
pub mod wide;
