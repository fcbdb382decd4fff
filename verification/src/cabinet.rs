//! Cabinet impulse response sizing.

use vstd::prelude::*;

verus! {

/// Maximum IR length in samples (about 10.7 ms at 48 kHz).
pub const MAX_IR_LENGTH: usize = 512;

/// Length of an impulse response built from `requested` samples: longer
/// inputs are truncated to [`MAX_IR_LENGTH`].
pub fn ir_length(requested: usize) -> (n: usize)
    ensures
        n == if requested < MAX_IR_LENGTH { requested } else { MAX_IR_LENGTH },
{
    if requested < MAX_IR_LENGTH {
        requested
    } else {
        MAX_IR_LENGTH
    }
}

} // verus!
