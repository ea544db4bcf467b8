use vstd::prelude::*;

verus! {

/// The mutable handles the supervisor holds across stages.
///
/// A handle is a plain id: the driver that talks to the Bluetooth stack
/// keeps the real adapter, peripheral and characteristic objects in
/// tables keyed by these ids, and the supervisor only decides which one
/// each stage works on.
#[derive(Clone, Copy, Debug, PartialEq, Eq)]
pub struct SessionState {
    /// Set by a successful adapter acquisition; replaced on each attempt.
    pub adapter: Option<u64>,
    /// Set when a scan poll finds a matching advertisement; cleared when
    /// a notification session ends in failure.
    pub peripheral: Option<u64>,
    /// Set during discovery; cleared together with `peripheral`.
    pub characteristic: Option<u64>,
}

impl SessionState {
    /// A characteristic is never held without its peripheral.
    pub open spec fn wf(self) -> bool {
        self.characteristic is Some ==> self.peripheral is Some
    }

    /// The state before any stage has run: no handle is held.
    pub fn empty() -> (s: SessionState)
        ensures
            s.adapter is None,
            s.peripheral is None,
            s.characteristic is None,
    {
        SessionState { adapter: None, peripheral: None, characteristic: None }
    }
}

} // verus!
