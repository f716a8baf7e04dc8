//! The runtime handle and its once-only slot.
//!
//! The patch runtime is an external engine; this module models what the shim
//! itself guarantees about it: the handle is created with the options the
//! flags chose, it is stored exactly once for the process lifetime, and any
//! second storage attempt is reported as a failure rather than merged.

use vstd::prelude::*;

verus! {

/// The process-wide handle to the external patch runtime, as the shim sees
/// it: the options it was created with.  The engine behind it is opaque.
#[derive(Clone, Copy, PartialEq, Eq, Debug, Structural)]
pub struct Runtime {
    /// Whether the engine was asked for verbose patch dumping.
    pub dump_all: bool,
}

impl Runtime {
    /// Create the runtime handle with the dumping option the flags chose.
    /// The engine also receives the call-original closure; that closure is
    /// the detour's trampoline, which the detour state tracks.
    pub fn init(dump_all: bool) -> (rt: Runtime)
        ensures
            rt.dump_all == dump_all,
    {
        Runtime { dump_all }
    }
}

/// A once-only slot for the runtime handle.
///
/// The interception bridge reads the slot unconditionally, so the slot must
/// be filled before the detour is enabled; and attach fires at most once per
/// process, so a second fill attempt is a programming error that the caller
/// must treat as fatal, which `set` reports by refusing the value.
pub struct RuntimeSlot {
    value: Option<Runtime>,
}

impl RuntimeSlot {
    /// Whether the slot has been filled.
    pub closed spec fn is_set(&self) -> bool {
        self.value is Some
    }

    /// The handle the slot holds, once filled.
    pub closed spec fn spec_get(&self) -> Runtime {
        self.value->Some_0
    }

    /// An empty slot.
    pub fn empty() -> (s: RuntimeSlot)
        ensures
            !s.is_set(),
    {
        RuntimeSlot { value: None }
    }

    /// Fill the slot exactly once.  A second attempt leaves the slot as it
    /// was and hands the refused handle back, so the caller can abort.
    pub fn set(&mut self, rt: Runtime) -> (r: Result<(), Runtime>)
        ensures
            !old(self).is_set() ==> r is Ok && final(self).is_set() && final(self).spec_get()
                == rt,
            old(self).is_set() ==> r == Result::<(), Runtime>::Err(rt) && final(self).is_set()
                && final(self).spec_get() == old(self).spec_get(),
    {
        match self.value {
            Option::None => {
                self.value = Option::Some(rt);
                Result::Ok(())
            },
            Option::Some(_) => Result::Err(rt),
        }
    }

    /// Read the handle.  The bridge dereferences the slot unconditionally,
    /// so reading is only allowed once the slot is known to be filled.
    pub fn get(&self) -> (rt: &Runtime)
        requires
            self.is_set(),
        ensures
            *rt == self.spec_get(),
    {
        match &self.value {
            Option::Some(rt) => rt,
            Option::None => unreached(),
        }
    }

    /// Whether the slot has been filled, observably.
    pub fn is_initialized(&self) -> (b: bool)
        ensures
            b == self.is_set(),
    {
        self.value.is_some()
    }
}

} // verus!
