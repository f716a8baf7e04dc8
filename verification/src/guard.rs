//! The process-lifecycle guard: the one-time attach state machine.
//!
//! The guard runs inside the host's module-notification callback.  It is the
//! only component that decides anything: every OS step (installing the crash
//! handler, allocating the console, loading the module, resolving the
//! symbol, patching) is an [`Action`] the guard hands out, and the outcome
//! comes back as the next [`Event`].  The native layer performs the actions
//! in the order the guard emits them and never decides on its own.
//!
//! Every failure path is terminal by design: a shim that is wrong about its
//! own hooking state is unsafe to keep running, so the guard aborts rather
//! than retries.

use vstd::prelude::*;

use crate::flags::Flags;

verus! {

/// The notification reason code that means "the module was just attached to
/// the process".  Every other reason (detach, thread attach or detach) is a
/// no-op for this shim.
pub const ATTACH_REASON: u32 = 1;

/// The status code the notification callback hands back to the host on
/// success.
pub const SUCCESS_STATUS: u32 = 1;

/// The guard's position in the one-time installation.
#[derive(Clone, Copy, PartialEq, Eq, Debug, Structural)]
pub enum GuardState {
    /// No attach notification has arrived yet.
    Unattached,
    /// The crash handler was requested; waiting for it to be in place.
    ArmingCrashHandler,
    /// The diagnostic console was requested; waiting for the outcome.
    AwaitingConsole,
    /// The runtime handle was requested to be built and stored.
    AwaitingRuntime,
    /// The target module was requested to be loaded.
    AwaitingModule,
    /// The target symbol was requested to be resolved.
    AwaitingSymbol,
    /// The detour was requested to be installed on the resolved target.
    AwaitingInstall,
    /// The installed detour was requested to be enabled.
    AwaitingEnable,
    /// Interception is installed and live.  Terminal.
    Active,
    /// Interception was deliberately skipped (opt-out flag).  Terminal.
    Inert,
    /// An unrecoverable failure; process attach is aborted.  Terminal.
    Failed,
}

/// An outcome handed back to the guard by the native layer.
#[derive(Clone, Copy, PartialEq, Eq, Debug, Structural)]
pub enum Event {
    /// A module notification from the host, with its reason code.
    Notification { reason: u32 },
    /// The process-wide crash handler is in place (this cannot fail).
    CrashHandlerInstalled,
    /// The console step finished; whether the title could be set.  A failed
    /// console allocation itself is ignored, a failed title set is fatal.
    ConsoleReady { title_set: bool },
    /// The once-only slot accepted the runtime handle, or refused it
    /// because it was already filled.
    RuntimeStored { accepted: bool },
    /// The target module finished loading; the handle, or 0 if it could not
    /// be loaded.
    ModuleLoaded { handle: u64 },
    /// Symbol resolution finished; the address, or 0 if the symbol is
    /// absent.
    SymbolResolved { addr: u64 },
    /// Detour installation finished.
    DetourInstalled { ok: bool },
    /// Enabling the detour finished.
    DetourEnabled { ok: bool },
}

/// The distinct unrecoverable failures.  Each aborts process attach: a
/// partial hooking state is worse than no shim at all.
#[derive(Clone, Copy, PartialEq, Eq, Debug, Structural)]
pub enum Fatal {
    /// The console title could not be set.
    ConsoleTitle,
    /// The runtime handle was initialized a second time — which is also how
    /// a second attach notification surfaces.
    DoubleInit,
    /// The module that exports the target symbol could not be loaded.
    ModuleNotFound,
    /// The target symbol is absent from the loaded module.
    SymbolNotFound,
    /// The detour could not be installed.
    InstallFailed,
    /// The installed detour could not be enabled.
    EnableFailed,
}

/// What the native layer must do next.
#[derive(Clone, Copy, PartialEq, Eq, Debug, Structural)]
pub enum Action {
    /// Hand this status back to the host; nothing more to do now.
    Give { status: u32 },
    /// Install the process-wide crash handler.
    InstallCrashHandler,
    /// Allocate the diagnostic console and set its title.
    SetupConsole,
    /// Build the runtime handle, with verbose dumping as asked, and store
    /// it in the once-only slot.
    InitRuntime { dump_all: bool },
    /// Load the module that exports the target symbol.
    LoadTargetModule,
    /// Resolve the target symbol's address in the loaded module.
    ResolveTargetSymbol,
    /// Install the detour from this resolved, non-null target address to
    /// the interception bridge.
    InstallDetour { target: u64 },
    /// Enable the installed detour.
    EnableDetour,
    /// Unrecoverable: abort process attach with this failure.
    Abort { error: Fatal },
}

/// The process-lifecycle guard: the startup flags, fixed at construction,
/// and the current position in the installation.
#[derive(Clone, Copy, PartialEq, Eq, Debug, Structural)]
pub struct Guard {
    /// The parsed startup flags, read-only for the guard's lifetime.
    pub flags: Flags,
    /// The current state.
    pub state: GuardState,
    /// Whether the runtime slot has accepted the handle.  Tracked so the
    /// ordering invariant — the runtime is stored before the detour can be
    /// enabled — is visible in every later state.
    pub runtime_ready: bool,
}

impl Guard {
    /// The guard's invariant: the terminal and intermediate states are
    /// consistent with the flags, and every state at or past module loading
    /// has the runtime handle stored.
    pub open spec fn inv(&self) -> bool {
        &&& (self.state is Inert ==> self.flags.disable_mods)
        &&& (match self.state {
            GuardState::ArmingCrashHandler
            | GuardState::AwaitingConsole
            | GuardState::AwaitingRuntime
            | GuardState::AwaitingModule
            | GuardState::AwaitingSymbol
            | GuardState::AwaitingInstall
            | GuardState::AwaitingEnable
            | GuardState::Active => !self.flags.disable_mods,
            _ => true,
        })
        &&& (match self.state {
            GuardState::AwaitingModule
            | GuardState::AwaitingSymbol
            | GuardState::AwaitingInstall
            | GuardState::AwaitingEnable
            | GuardState::Active => self.runtime_ready,
            _ => true,
        })
    }

    /// Which event the guard expects next.  The three resting states react
    /// only to host notifications; each waiting state expects the outcome
    /// of the action it emitted; a failed guard accepts nothing.
    pub open spec fn accepts(&self, e: Event) -> bool {
        match self.state {
            GuardState::Unattached | GuardState::Inert | GuardState::Active => e is Notification,
            GuardState::ArmingCrashHandler => e is CrashHandlerInstalled,
            GuardState::AwaitingConsole => e is ConsoleReady,
            GuardState::AwaitingRuntime => e is RuntimeStored,
            GuardState::AwaitingModule => e is ModuleLoaded,
            GuardState::AwaitingSymbol => e is SymbolResolved,
            GuardState::AwaitingInstall => e is DetourInstalled,
            GuardState::AwaitingEnable => e is DetourEnabled,
            GuardState::Failed => false,
        }
    }

    /// The transition function, in full.  An unexpected state-event pair
    /// (which `accepts` rules out for the executable step) changes nothing
    /// and reports success.
    pub open spec fn spec_step(g: Guard, e: Event) -> (Guard, Action) {
        match (g.state, e) {
            (GuardState::Unattached, Event::Notification { reason }) => {
                if reason != ATTACH_REASON {
                    (g, Action::Give { status: SUCCESS_STATUS })
                } else if g.flags.disable_mods {
                    (
                        Guard { state: GuardState::Inert, ..g },
                        Action::Give { status: SUCCESS_STATUS },
                    )
                } else {
                    (
                        Guard { state: GuardState::ArmingCrashHandler, ..g },
                        Action::InstallCrashHandler,
                    )
                }
            },
            (GuardState::Inert, Event::Notification { .. }) => (
                g,
                Action::Give { status: SUCCESS_STATUS },
            ),
            (GuardState::Active, Event::Notification { reason }) => {
                if reason != ATTACH_REASON {
                    (g, Action::Give { status: SUCCESS_STATUS })
                } else {
                    (
                        Guard { state: GuardState::Failed, ..g },
                        Action::Abort { error: Fatal::DoubleInit },
                    )
                }
            },
            (GuardState::ArmingCrashHandler, Event::CrashHandlerInstalled) => {
                if g.flags.disable_console {
                    (
                        Guard { state: GuardState::AwaitingRuntime, ..g },
                        Action::InitRuntime { dump_all: g.flags.dump_all },
                    )
                } else {
                    (Guard { state: GuardState::AwaitingConsole, ..g }, Action::SetupConsole)
                }
            },
            (GuardState::AwaitingConsole, Event::ConsoleReady { title_set }) => {
                if title_set {
                    (
                        Guard { state: GuardState::AwaitingRuntime, ..g },
                        Action::InitRuntime { dump_all: g.flags.dump_all },
                    )
                } else {
                    (
                        Guard { state: GuardState::Failed, ..g },
                        Action::Abort { error: Fatal::ConsoleTitle },
                    )
                }
            },
            (GuardState::AwaitingRuntime, Event::RuntimeStored { accepted }) => {
                if accepted {
                    (
                        Guard { state: GuardState::AwaitingModule, runtime_ready: true, ..g },
                        Action::LoadTargetModule,
                    )
                } else {
                    (
                        Guard { state: GuardState::Failed, ..g },
                        Action::Abort { error: Fatal::DoubleInit },
                    )
                }
            },
            (GuardState::AwaitingModule, Event::ModuleLoaded { handle }) => {
                if handle != 0 {
                    (
                        Guard { state: GuardState::AwaitingSymbol, ..g },
                        Action::ResolveTargetSymbol,
                    )
                } else {
                    (
                        Guard { state: GuardState::Failed, ..g },
                        Action::Abort { error: Fatal::ModuleNotFound },
                    )
                }
            },
            (GuardState::AwaitingSymbol, Event::SymbolResolved { addr }) => {
                if addr != 0 {
                    (
                        Guard { state: GuardState::AwaitingInstall, ..g },
                        Action::InstallDetour { target: addr },
                    )
                } else {
                    (
                        Guard { state: GuardState::Failed, ..g },
                        Action::Abort { error: Fatal::SymbolNotFound },
                    )
                }
            },
            (GuardState::AwaitingInstall, Event::DetourInstalled { ok }) => {
                if ok {
                    (Guard { state: GuardState::AwaitingEnable, ..g }, Action::EnableDetour)
                } else {
                    (
                        Guard { state: GuardState::Failed, ..g },
                        Action::Abort { error: Fatal::InstallFailed },
                    )
                }
            },
            (GuardState::AwaitingEnable, Event::DetourEnabled { ok }) => {
                if ok {
                    (
                        Guard { state: GuardState::Active, ..g },
                        Action::Give { status: SUCCESS_STATUS },
                    )
                } else {
                    (
                        Guard { state: GuardState::Failed, ..g },
                        Action::Abort { error: Fatal::EnableFailed },
                    )
                }
            },
            _ => (g, Action::Give { status: SUCCESS_STATUS }),
        }
    }

    /// A fresh guard, before any notification, with the flags it will live
    /// with.
    pub fn new(flags: Flags) -> (g: Guard)
        ensures
            g.flags == flags,
            g.state == GuardState::Unattached,
            !g.runtime_ready,
            g.inv(),
    {
        Guard { flags, state: GuardState::Unattached, runtime_ready: false }
    }

    /// Take one step: consume the outcome of the previous action and emit
    /// the next one.  The executable step follows `spec_step` exactly and
    /// preserves the invariant and the flags.
    pub fn step(&mut self, event: Event) -> (a: Action)
        requires
            old(self).accepts(event),
            old(self).inv(),
        ensures
            (*final(self), a) == Guard::spec_step(*old(self), event),
            final(self).inv(),
            final(self).flags == old(self).flags,
    {
        let next: (Guard, Action) = match (self.state, event) {
            (GuardState::Unattached, Event::Notification { reason }) => {
                if reason != ATTACH_REASON {
                    (*self, Action::Give { status: SUCCESS_STATUS })
                } else if self.flags.disable_mods {
                    (
                        Guard { state: GuardState::Inert, ..*self },
                        Action::Give { status: SUCCESS_STATUS },
                    )
                } else {
                    (
                        Guard { state: GuardState::ArmingCrashHandler, ..*self },
                        Action::InstallCrashHandler,
                    )
                }
            },
            (GuardState::Inert, Event::Notification { .. }) => (
                *self,
                Action::Give { status: SUCCESS_STATUS },
            ),
            (GuardState::Active, Event::Notification { reason }) => {
                if reason != ATTACH_REASON {
                    (*self, Action::Give { status: SUCCESS_STATUS })
                } else {
                    (
                        Guard { state: GuardState::Failed, ..*self },
                        Action::Abort { error: Fatal::DoubleInit },
                    )
                }
            },
            (GuardState::ArmingCrashHandler, Event::CrashHandlerInstalled) => {
                if self.flags.disable_console {
                    (
                        Guard { state: GuardState::AwaitingRuntime, ..*self },
                        Action::InitRuntime { dump_all: self.flags.dump_all },
                    )
                } else {
                    (Guard { state: GuardState::AwaitingConsole, ..*self }, Action::SetupConsole)
                }
            },
            (GuardState::AwaitingConsole, Event::ConsoleReady { title_set }) => {
                if title_set {
                    (
                        Guard { state: GuardState::AwaitingRuntime, ..*self },
                        Action::InitRuntime { dump_all: self.flags.dump_all },
                    )
                } else {
                    (
                        Guard { state: GuardState::Failed, ..*self },
                        Action::Abort { error: Fatal::ConsoleTitle },
                    )
                }
            },
            (GuardState::AwaitingRuntime, Event::RuntimeStored { accepted }) => {
                if accepted {
                    (
                        Guard { state: GuardState::AwaitingModule, runtime_ready: true, ..*self },
                        Action::LoadTargetModule,
                    )
                } else {
                    (
                        Guard { state: GuardState::Failed, ..*self },
                        Action::Abort { error: Fatal::DoubleInit },
                    )
                }
            },
            (GuardState::AwaitingModule, Event::ModuleLoaded { handle }) => {
                if handle != 0 {
                    (
                        Guard { state: GuardState::AwaitingSymbol, ..*self },
                        Action::ResolveTargetSymbol,
                    )
                } else {
                    (
                        Guard { state: GuardState::Failed, ..*self },
                        Action::Abort { error: Fatal::ModuleNotFound },
                    )
                }
            },
            (GuardState::AwaitingSymbol, Event::SymbolResolved { addr }) => {
                if addr != 0 {
                    (
                        Guard { state: GuardState::AwaitingInstall, ..*self },
                        Action::InstallDetour { target: addr },
                    )
                } else {
                    (
                        Guard { state: GuardState::Failed, ..*self },
                        Action::Abort { error: Fatal::SymbolNotFound },
                    )
                }
            },
            (GuardState::AwaitingInstall, Event::DetourInstalled { ok }) => {
                if ok {
                    (Guard { state: GuardState::AwaitingEnable, ..*self }, Action::EnableDetour)
                } else {
                    (
                        Guard { state: GuardState::Failed, ..*self },
                        Action::Abort { error: Fatal::InstallFailed },
                    )
                }
            },
            (GuardState::AwaitingEnable, Event::DetourEnabled { ok }) => {
                if ok {
                    (
                        Guard { state: GuardState::Active, ..*self },
                        Action::Give { status: SUCCESS_STATUS },
                    )
                } else {
                    (
                        Guard { state: GuardState::Failed, ..*self },
                        Action::Abort { error: Fatal::EnableFailed },
                    )
                }
            },
            _ => (*self, Action::Give { status: SUCCESS_STATUS }),
        };
        *self = next.0;
        next.1
    }

    /// The guard run over a whole sequence of events: the final guard and
    /// the actions emitted, in order.
    pub open spec fn spec_run(g: Guard, events: Seq<Event>) -> (Guard, Seq<Action>)
        decreases events.len(),
    {
        if events.len() == 0 {
            (g, Seq::<Action>::empty())
        } else {
            let first = Guard::spec_step(g, events[0]);
            let rest = Guard::spec_run(first.0, events.drop_first());
            (rest.0, seq![first.1] + rest.1)
        }
    }
}

/// With the disable-interception flag present, the shim stays a no-op
/// passenger forever: from the initial state, whatever events arrive, the
/// guard only ever reports success — it never asks for a console, a crash
/// handler, a runtime handle, or any hooking step — and it never leaves the
/// untouched states.
pub proof fn lemma_disabled_installs_nothing(g: Guard, events: Seq<Event>)
    requires
        g.flags.disable_mods,
        g.state is Unattached || g.state is Inert,
    ensures
        ({
            let r = Guard::spec_run(g, events);
            &&& r.0.state is Unattached || r.0.state is Inert
            &&& forall|i: int|
                0 <= i < r.1.len() ==> r.1[i] == (Action::Give { status: SUCCESS_STATUS })
        }),
    decreases events.len(),
{
    if events.len() > 0 {
        let first = Guard::spec_step(g, events[0]);
        lemma_disabled_installs_nothing(first.0, events.drop_first());
        let rest = Guard::spec_run(first.0, events.drop_first());
        assert forall|i: int| 0 <= i < (seq![first.1] + rest.1).len() implies (seq![first.1]
            + rest.1)[i] == (Action::Give { status: SUCCESS_STATUS }) by {
            if i > 0 {
                assert((seq![first.1] + rest.1)[i] == rest.1[i - 1]);
            }
        }
    }
}

/// A detour installation is only ever requested as the direct answer to a
/// successful symbol resolution, and it targets exactly the non-null
/// address that resolution produced.
pub proof fn lemma_install_needs_resolution(g: Guard, e: Event)
    ensures
        Guard::spec_step(g, e).1 matches Action::InstallDetour { target } ==> g.state
            is AwaitingSymbol && e == (Event::SymbolResolved { addr: target }) && target != 0,
{
}

/// An absent module aborts installation: the guard fails, and a failed
/// guard accepts no further event, so no detour step can ever follow.
pub proof fn lemma_absent_module_aborts(g: Guard)
    requires
        g.state is AwaitingModule,
    ensures
        Guard::spec_step(g, Event::ModuleLoaded { handle: 0 }) == (
        Guard { state: GuardState::Failed, ..g },
        Action::Abort { error: Fatal::ModuleNotFound },
        ),
        forall|e: Event|
            !Guard::spec_step(g, Event::ModuleLoaded { handle: 0 }).0.accepts(e),
{
}

/// An absent symbol aborts installation the same way, before any detour is
/// installed.
pub proof fn lemma_absent_symbol_aborts(g: Guard)
    requires
        g.state is AwaitingSymbol,
    ensures
        Guard::spec_step(g, Event::SymbolResolved { addr: 0 }) == (
        Guard { state: GuardState::Failed, ..g },
        Action::Abort { error: Fatal::SymbolNotFound },
        ),
        forall|e: Event|
            !Guard::spec_step(g, Event::SymbolResolved { addr: 0 }).0.accepts(e),
{
}

/// No partial hook state: a run in which no symbol resolution succeeds
/// never requests a detour installation.
pub proof fn lemma_no_install_without_resolution(g: Guard, events: Seq<Event>)
    requires
        forall|i: int|
            0 <= i < events.len() ==> !(#[trigger] events[i] matches Event::SymbolResolved {
                addr,
            } && addr != 0),
    ensures
        forall|i: int|
            0 <= i < Guard::spec_run(g, events).1.len() ==> !(#[trigger] Guard::spec_run(
                g,
                events,
            ).1[i] matches Action::InstallDetour { .. }),
    decreases events.len(),
{
    if events.len() > 0 {
        let first = Guard::spec_step(g, events[0]);
        lemma_install_needs_resolution(g, events[0]);
        lemma_no_install_without_resolution(first.0, events.drop_first());
        let rest = Guard::spec_run(first.0, events.drop_first());
        let acts = seq![first.1] + rest.1;
        assert forall|i: int| 0 <= i < acts.len() implies !(#[trigger] acts[i]
            matches Action::InstallDetour { .. }) by {
            if i > 0 {
                assert(acts[i] == rest.1[i - 1]);
            }
        }
    }
}

/// A second attach notification while interception is live is a fatal
/// double-initialization, never silently ignored or merged.
pub proof fn lemma_double_attach_fatal(g: Guard)
    requires
        g.state is Active,
    ensures
        Guard::spec_step(g, Event::Notification { reason: ATTACH_REASON }) == (
        Guard { state: GuardState::Failed, ..g },
        Action::Abort { error: Fatal::DoubleInit },
        ),
{
}

/// Every step preserves the guard's invariant and never touches the flags.
pub proof fn lemma_step_preserves_inv(g: Guard, e: Event)
    requires
        g.inv(),
    ensures
        Guard::spec_step(g, e).0.inv(),
        Guard::spec_step(g, e).0.flags == g.flags,
{
}

/// Ordering: the runtime handle is stored before the detour is ever
/// enabled, because enabling is only requested from a state whose invariant
/// carries the stored handle.  The bridge may therefore dereference the
/// slot unconditionally once the detour is live.
pub proof fn lemma_enable_needs_runtime(g: Guard, e: Event)
    requires
        g.inv(),
    ensures
        Guard::spec_step(g, e).1 is EnableDetour ==> g.runtime_ready,
        Guard::spec_step(g, e).0.state is Active ==> Guard::spec_step(g, e).0.runtime_ready,
{
}

} // verus!
