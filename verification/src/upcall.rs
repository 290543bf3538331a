//! Upcall descriptors and the events scheduled through them.

use vstd::prelude::*;

verus! {

/// A process-owned callback descriptor. The driver never runs the callback
/// itself; it only stores the descriptor and hands it back to the host
/// scheduler when an event must be delivered. The descriptor with identifier
/// zero is the inert default that no process has registered.
#[derive(Clone, Copy, Debug, PartialEq, Eq, Structural)]
pub struct Upcall {
    /// Identifier of the callback, assigned by the host runtime.
    pub id: u32,
}

impl Default for Upcall {
    /// The inert descriptor held before any registration.
    fn default() -> (r: Self)
        ensures
            r == (Upcall { id: 0 }),
    {
        Upcall { id: 0 }
    }
}

/// One pending delivery of a hardware event: the owner's registered callback
/// together with the three arguments it must be invoked with. The host
/// scheduler performs the actual invocation later, outside interrupt context.
#[derive(Clone, Copy, Debug, PartialEq, Eq, Structural)]
pub struct Scheduled {
    /// The callback to invoke.
    pub callback: Upcall,
    /// First argument: the index of the channel that fired.
    pub arg0: usize,
    /// Second argument, reserved as zero.
    pub arg1: usize,
    /// Third argument, reserved as zero.
    pub arg2: usize,
}

} // verus!
