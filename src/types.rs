//! Early placeholder state shapes.
use vstd::prelude::*;

verus! {

/// A coarse state record: one counter per subsystem.
#[derive(Clone, Copy, Debug, Default, PartialEq, Eq)]
pub struct SpacecraftState {
    pub truth_ephemeris: u16,
    pub truth_attitude: u16,
    pub truth_dynamics: u16,
}

/// A truth bus with nothing in it yet.
pub struct TruthBus {}

impl TruthBus {
    pub fn initialize() -> (r: Self)
        ensures
            r == (TruthBus {}),
    {
        TruthBus {}
    }
}

/// A simulation bus with nothing in it yet.
pub struct SimBus {}

} // verus!
