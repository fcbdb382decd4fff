//! Cabinet impulse response selection.

use vstd::prelude::*;

verus! {

/// Index constant for 1x12 American cabinet selection.
pub const IR_1X12_AMERICAN: usize = 0;

/// Index constant for 2x12 British cabinet selection.
pub const IR_2X12_BRITISH: usize = 1;

/// Index constant for 4x12 Heavy cabinet selection.
pub const IR_4X12_HEAVY: usize = 2;

/// Index constant for 1x10 Vintage cabinet selection.
pub const IR_1X10_VINTAGE: usize = 3;

/// Total number of available cabinet IRs.
pub const CABINET_IR_COUNT: usize = 4;

/// The IR that `index` selects: the IR of that index when it exists, the
/// 1x12 American IR otherwise.
pub open spec fn spec_cabinet_ir_slot(index: int) -> int {
    if index < CABINET_IR_COUNT {
        index
    } else {
        IR_1X12_AMERICAN as int
    }
}

/// The IR that `index` selects; an index past the available IRs falls back
/// to the 1x12 American IR.
pub fn cabinet_ir_slot(index: usize) -> (slot: usize)
    ensures
        slot == spec_cabinet_ir_slot(index as int),
        slot < CABINET_IR_COUNT,
        index < CABINET_IR_COUNT ==> slot == index,
        index >= CABINET_IR_COUNT ==> slot == IR_1X12_AMERICAN,
{
    if index < CABINET_IR_COUNT {
        index
    } else {
        IR_1X12_AMERICAN
    }
}

/// Each of the four IR indices selects its own IR (0: 1x12 American,
/// 1: 2x12 British, 2: 4x12 Heavy, 3: 1x10 Vintage), and every other index
/// falls back to the 1x12 American IR.
pub proof fn lemma_cabinet_ir_slot(index: int)
    requires
        index >= 0,
    ensures
        0 <= index < 4 ==> spec_cabinet_ir_slot(index) == index,
        index >= 4 ==> spec_cabinet_ir_slot(index) == 0,
        spec_cabinet_ir_slot(IR_1X12_AMERICAN as int) == 0,
        spec_cabinet_ir_slot(IR_2X12_BRITISH as int) == 1,
        spec_cabinet_ir_slot(IR_4X12_HEAVY as int) == 2,
        spec_cabinet_ir_slot(IR_1X10_VINTAGE as int) == 3,
        CABINET_IR_COUNT == 4,
{
}

} // verus!
