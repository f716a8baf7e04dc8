//! The detour lifecycle: a two-phase state machine (install, then enable)
//! over a single target symbol.
//!
//! Installing saves the address of the pre-hook entry point and prepares
//! the redirection; enabling makes every later call to the target flow to the
//! replacement.  Throughout both phases the original stays callable through
//! the trampoline, because the interception bridge conditionally forwards
//! to it.

use vstd::prelude::*;

verus! {

/// The lifecycle phase of a detour: prepared but not yet redirecting, or
/// actively redirecting calls.
#[derive(Clone, Copy, PartialEq, Eq, Debug, Structural)]
pub enum DetourPhase {
    /// The original address is saved and the jump is prepared, but calls
    /// still reach the original.
    Initialized,
    /// Calls to the target are redirected to the replacement.
    Enabled,
}

/// The state of the one detour this shim installs: the saved original
/// address, the replacement it redirects to, and the phase.
///
/// Exactly one detour exists per target symbol; it lives for the rest of the
/// process once enabled (the shim never tears it down).
#[derive(Clone, Copy, PartialEq, Eq, Debug, Structural)]
pub struct Detour {
    /// Lifecycle phase.
    pub phase: DetourPhase,
    /// Address of the unmodified pre-hook entry point.
    pub original: u64,
    /// Address of the replacement the target is redirected to.
    pub replacement: u64,
}

impl Detour {
    /// Both ends of the redirection are real (non-null) addresses.
    pub open spec fn wf(&self) -> bool {
        self.original != 0 && self.replacement != 0
    }

    /// Whether calls are currently redirected.
    pub open spec fn is_enabled(&self) -> bool {
        self.phase is Enabled
    }

    /// Where a call to the target symbol transfers: the replacement once the
    /// detour is enabled, the original before that.
    pub open spec fn spec_route(&self) -> u64 {
        if self.is_enabled() {
            self.replacement
        } else {
            self.original
        }
    }

    /// Install the detour: save the original address and prepare the
    /// redirection, without redirecting yet.
    ///
    /// Both addresses must be non-null; a null address here would mean a
    /// partially-hooked target, which this shim treats as unrecoverable.
    pub fn install(original: u64, replacement: u64) -> (d: Detour)
        requires
            original != 0,
            replacement != 0,
        ensures
            d.wf(),
            !d.is_enabled(),
            d.original == original,
            d.replacement == replacement,
    {
        Detour { phase: DetourPhase::Initialized, original, replacement }
    }

    /// Enable the redirection.  The saved original address is untouched, so
    /// the pre-hook behavior stays reachable through the trampoline.
    pub fn enable(&mut self)
        requires
            !old(self).is_enabled(),
        ensures
            final(self).is_enabled(),
            final(self).original == old(self).original,
            final(self).replacement == old(self).replacement,
    {
        self.phase = DetourPhase::Enabled;
    }

    /// Whether calls are currently redirected, observably.
    pub fn enabled(&self) -> (b: bool)
        ensures
            b == self.is_enabled(),
    {
        matches!(self.phase, DetourPhase::Enabled)
    }

    /// The trampoline: the preserved path to the original, unmodified
    /// behavior of the target, valid in either phase.
    pub fn trampoline(&self) -> (a: u64)
        ensures
            a == self.original,
    {
        self.original
    }

    /// Where a call to the target symbol goes right now.
    pub fn route(&self) -> (a: u64)
        ensures
            a == self.spec_route(),
    {
        match self.phase {
            DetourPhase::Enabled => self.replacement,
            DetourPhase::Initialized => self.original,
        }
    }
}

} // verus!
