//! Tone stack topologies.

use vstd::prelude::*;

verus! {

/// Tone stack EQ topology.
#[derive(Debug, Clone, Copy, PartialEq, Eq, Structural)]
pub enum ToneStackType {
    /// Fender topology (mid-scooped).
    Fender,
    /// Marshall topology (mid-forward).
    Marshall,
    /// Vox topology (cut control).
    Vox,
    /// No tone shaping.
    Bypassed,
}

impl Default for ToneStackType {
    /// The default topology is Fender.
    fn default() -> (t: Self)
        ensures
            t == ToneStackType::Fender,
    {
        ToneStackType::Fender
    }
}

} // verus!
