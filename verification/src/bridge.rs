//! The interception bridge: the fixed-signature callback the detour
//! redirects the target symbol into.
//!
//! The target symbol takes an interpreter-state pointer, a buffer with its
//! declared length, and two nul-terminated strings naming the chunk and its
//! load mode, and returns an unsigned status code.  The bridge's whole
//! contract is fidelity: it hands the patch runtime exactly the five values
//! it received, and it hands the caller exactly the status the runtime
//! returned.

use vstd::prelude::*;

use crate::detour::Detour;
use crate::runtime::RuntimeSlot;

verus! {

/// The five-value argument record of one call to the target symbol, as
/// plain values: the interpreter-state token, the buffer contents, the
/// declared buffer length, and the chunk's name and mode strings as bytes.
pub struct LoadArgs {
    /// Opaque token standing for the interpreter-state pointer.
    pub state: u64,
    /// The buffer contents.
    pub buf: Vec<u8>,
    /// The declared length of the buffer, signed as the target symbol
    /// declares it.
    pub len: isize,
    /// The chunk name, without its nul terminator.
    pub name: Vec<u8>,
    /// The load mode, without its nul terminator.
    pub mode: Vec<u8>,
}

/// Two argument records carry the same five values.
pub open spec fn same_args(a: LoadArgs, b: LoadArgs) -> bool {
    &&& a.state == b.state
    &&& a.buf@ == b.buf@
    &&& a.len == b.len
    &&& a.name@ == b.name@
    &&& a.mode@ == b.mode@
}

/// What the bridge hands the runtime: the received record itself.
pub open spec fn spec_forward(call: LoadArgs) -> LoadArgs {
    call
}

/// What the bridge returns to the caller: the runtime's status itself.
pub open spec fn spec_return(status: u32) -> u32 {
    status
}

/// Where one call to the target symbol is dispatched.
pub enum Dispatch {
    /// The call was redirected into the interception bridge.
    ToBridge(LoadArgs),
    /// The call reached the unhooked target untouched.
    ToOriginal(LoadArgs),
}

/// Dispatch one call to the target symbol: redirected into the bridge while
/// the detour is enabled, straight to the original otherwise, the argument
/// record unmodified either way.
pub fn dispatch_call(d: &Detour, call: LoadArgs) -> (r: Dispatch)
    ensures
        d.is_enabled() ==> (r matches Dispatch::ToBridge(a) && same_args(a, call)),
        !d.is_enabled() ==> (r matches Dispatch::ToOriginal(a) && same_args(a, call)),
{
    if d.enabled() {
        Dispatch::ToBridge(call)
    } else {
        Dispatch::ToOriginal(call)
    }
}

/// The bridge's first half: read the runtime handle from its slot and pass
/// the received record through to the engine's patch-application entry
/// point, unmodified.
///
/// The slot must already be filled: the real bridge dereferences the handle
/// unconditionally, so a call arriving before initialization is a fatal
/// ordering violation, which this precondition rules out.
pub fn bridge_forward(slot: &RuntimeSlot, call: LoadArgs) -> (fwd: LoadArgs)
    requires
        slot.is_set(),
    ensures
        same_args(fwd, spec_forward(call)),
{
    let _rt = slot.get();
    call
}

/// The bridge's second half: the engine's status code becomes the call's
/// result, with no transformation.
pub fn bridge_return(engine_status: u32) -> (r: u32)
    ensures
        r == spec_return(engine_status),
{
    engine_status
}

/// Round trip.  Once the detour is enabled, a call to the target symbol is
/// redirected to the bridge (`spec_route` is the replacement), the bridge
/// hands the engine exactly the five received values (`spec_forward` is the
/// identity), and when the engine elects to pass the call through to the
/// original unmodified — so its status is exactly what the unhooked original
/// returns for those arguments — the caller receives that same status,
/// bit-identical (`spec_return` is the identity).
pub proof fn lemma_round_trip(d: Detour, call: LoadArgs, engine_status: u32, original_status: u32)
    requires
        d.wf(),
        d.is_enabled(),
        engine_status == original_status,
    ensures
        d.spec_route() == d.replacement,
        same_args(spec_forward(call), call),
        spec_return(engine_status) == original_status,
{
}

} // verus!
