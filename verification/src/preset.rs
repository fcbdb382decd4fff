//! Amp presets: the discrete part of each preset's configuration (its name,
//! number of preamp stages, tone stack topology and cabinet impulse response)
//! and lookup by name.

use vstd::prelude::*;
use crate::tonestack::ToneStackType;
use crate::cabinet_irs::{IR_1X10_VINTAGE, IR_1X12_AMERICAN, IR_2X12_BRITISH, IR_4X12_HEAVY};

verus! {

/// Configuration of an amp preset that selects parts of the signal chain.
#[derive(Debug, Clone, Copy)]
pub struct AmpPreset {
    /// Preset identifier name, used for lookup and display.
    pub name: &'static str,
    /// Number of active preamp stages (1-4).
    pub num_stages: usize,
    /// Tone stack EQ topology.
    pub tone_stack_type: ToneStackType,
    /// Cabinet impulse response index (0-3).
    pub cabinet_ir_index: usize,
}

/// All presets, in display order.
pub open spec fn spec_all_presets() -> Seq<AmpPreset> {
    seq![
        AmpPreset {
            name: "clean_twin",
            num_stages: 2,
            tone_stack_type: ToneStackType::Fender,
            cabinet_ir_index: 0,
        },
        AmpPreset {
            name: "tweed_deluxe",
            num_stages: 2,
            tone_stack_type: ToneStackType::Fender,
            cabinet_ir_index: 0,
        },
        AmpPreset {
            name: "plexi_crunch",
            num_stages: 3,
            tone_stack_type: ToneStackType::Marshall,
            cabinet_ir_index: 1,
        },
        AmpPreset {
            name: "brit_high",
            num_stages: 3,
            tone_stack_type: ToneStackType::Marshall,
            cabinet_ir_index: 2,
        },
        AmpPreset {
            name: "ac30_chime",
            num_stages: 3,
            tone_stack_type: ToneStackType::Vox,
            cabinet_ir_index: 1,
        },
        AmpPreset {
            name: "recto_heavy",
            num_stages: 4,
            tone_stack_type: ToneStackType::Fender,
            cabinet_ir_index: 2,
        },
    ]
}

/// Clean Twin preset - Fender Twin Reverb character.
pub fn clean_twin() -> (p: AmpPreset)
    ensures
        p == spec_all_presets()[0],
        p.name@ == "clean_twin"@,
        p.num_stages == 2,
        p.tone_stack_type == ToneStackType::Fender,
        p.cabinet_ir_index == IR_1X12_AMERICAN,
{
    AmpPreset {
        name: "clean_twin",
        num_stages: 2,
        tone_stack_type: ToneStackType::Fender,
        cabinet_ir_index: 0,
    }
}

/// Tweed Deluxe preset - Fender Deluxe character.
pub fn tweed_deluxe() -> (p: AmpPreset)
    ensures
        p == spec_all_presets()[1],
        p.name@ == "tweed_deluxe"@,
        p.num_stages == 2,
        p.tone_stack_type == ToneStackType::Fender,
        p.cabinet_ir_index == IR_1X12_AMERICAN,
{
    AmpPreset {
        name: "tweed_deluxe",
        num_stages: 2,
        tone_stack_type: ToneStackType::Fender,
        cabinet_ir_index: 0,
    }
}

/// Plexi Crunch preset - Marshall JTM45 character.
pub fn plexi_crunch() -> (p: AmpPreset)
    ensures
        p == spec_all_presets()[2],
        p.name@ == "plexi_crunch"@,
        p.num_stages == 3,
        p.tone_stack_type == ToneStackType::Marshall,
        p.cabinet_ir_index == IR_2X12_BRITISH,
{
    AmpPreset {
        name: "plexi_crunch",
        num_stages: 3,
        tone_stack_type: ToneStackType::Marshall,
        cabinet_ir_index: 1,
    }
}

/// Brit High preset - Marshall JCM800 character.
pub fn brit_high() -> (p: AmpPreset)
    ensures
        p == spec_all_presets()[3],
        p.name@ == "brit_high"@,
        p.num_stages == 3,
        p.tone_stack_type == ToneStackType::Marshall,
        p.cabinet_ir_index == IR_4X12_HEAVY,
{
    AmpPreset {
        name: "brit_high",
        num_stages: 3,
        tone_stack_type: ToneStackType::Marshall,
        cabinet_ir_index: 2,
    }
}

/// AC30 Chime preset - Vox AC30 character.
pub fn ac30_chime() -> (p: AmpPreset)
    ensures
        p == spec_all_presets()[4],
        p.name@ == "ac30_chime"@,
        p.num_stages == 3,
        p.tone_stack_type == ToneStackType::Vox,
        p.cabinet_ir_index == IR_2X12_BRITISH,
{
    AmpPreset {
        name: "ac30_chime",
        num_stages: 3,
        tone_stack_type: ToneStackType::Vox,
        cabinet_ir_index: 1,
    }
}

/// Recto Heavy preset - modern high-gain character.
pub fn recto_heavy() -> (p: AmpPreset)
    ensures
        p == spec_all_presets()[5],
        p.name@ == "recto_heavy"@,
        p.num_stages == 4,
        p.tone_stack_type == ToneStackType::Fender,
        p.cabinet_ir_index == IR_4X12_HEAVY,
{
    AmpPreset {
        name: "recto_heavy",
        num_stages: 4,
        tone_stack_type: ToneStackType::Fender,
        cabinet_ir_index: 2,
    }
}

/// All available amp presets, in display order.
pub fn all_presets() -> (ps: [AmpPreset; 6])
    ensures
        ps@ == spec_all_presets(),
{
    let ps = [clean_twin(), tweed_deluxe(), plexi_crunch(), brit_high(), ac30_chime(), recto_heavy()];
    assert(ps@ =~= spec_all_presets());
    ps
}

/// The number of available presets.
pub fn preset_count() -> (n: usize)
    ensures
        n == spec_all_presets().len(),
{
    6
}

/// Whether two strings hold the same characters.
fn str_equal(a: &str, b: &str) -> (r: bool)
    ensures
        r == (a@ == b@),
{
    let x = a.as_bytes();
    let y = b.as_bytes();
    proof {
        vstd::utf8::encode_utf8_decode_utf8(a@);
        vstd::utf8::encode_utf8_decode_utf8(b@);
    }
    if x.len() != y.len() {
        return false;
    }
    let mut i: usize = 0;
    while i < x.len()
        invariant
            x@ == vstd::utf8::encode_utf8(a@),
            y@ == vstd::utf8::encode_utf8(b@),
            x@.len() == y@.len(),
            i <= x@.len(),
            forall|j: int| 0 <= j < i ==> x@[j] == y@[j],
        decreases x@.len() - i,
    {
        if x[i] != y[i] {
            return false;
        }
        i = i + 1;
    }
    assert(x@ =~= y@);
    true
}

/// Position in [`all_presets`] of the preset named `name` (case-sensitive).
pub fn preset_index_by_name(name: &str) -> (r: Option<usize>)
    ensures
        r is None <==> forall|i: int|
            0 <= i < spec_all_presets().len() ==> spec_all_presets()[i].name@ != name@,
        r matches Some(i) ==> i < spec_all_presets().len() && spec_all_presets()[i as int].name@
            == name@,
{
    let ps = all_presets();
    let mut i: usize = 0;
    while i < 6
        invariant
            ps@ == spec_all_presets(),
            i <= 6,
            forall|j: int| 0 <= j < i ==> spec_all_presets()[j].name@ != name@,
        decreases 6 - i,
    {
        if str_equal(ps[i].name, name) {
            return Some(i);
        }
        i = i + 1;
    }
    None
}

/// Finds a preset by its name (case-sensitive).
pub fn preset_by_name(name: &str) -> (r: Option<AmpPreset>)
    ensures
        r is None <==> forall|i: int|
            0 <= i < spec_all_presets().len() ==> spec_all_presets()[i].name@ != name@,
        r matches Some(p) ==> p.name@ == name@ && exists|i: int|
            0 <= i < spec_all_presets().len() && spec_all_presets()[i] == p,
{
    match preset_index_by_name(name) {
        Some(i) => {
            let ps = all_presets();
            Some(ps[i])
        },
        None => None,
    }
}

} // verus!

verus! {

/// The preset list, in display order: clean_twin (2 stages, Fender, 1x12
/// American), tweed_deluxe (2, Fender, 1x12 American), plexi_crunch (3,
/// Marshall, 2x12 British), brit_high (3, Marshall, 4x12 Heavy), ac30_chime
/// (3, Vox, 2x12 British) and recto_heavy (4, Fender, 4x12 Heavy). No preset
/// uses the 1x10 Vintage cabinet.
pub proof fn lemma_preset_table()
    ensures
        spec_all_presets().len() == 6,
        spec_all_presets()[0].name@ == "clean_twin"@,
        spec_all_presets()[0].num_stages == 2,
        spec_all_presets()[0].tone_stack_type == ToneStackType::Fender,
        spec_all_presets()[0].cabinet_ir_index == IR_1X12_AMERICAN,
        spec_all_presets()[1].name@ == "tweed_deluxe"@,
        spec_all_presets()[1].num_stages == 2,
        spec_all_presets()[1].tone_stack_type == ToneStackType::Fender,
        spec_all_presets()[1].cabinet_ir_index == IR_1X12_AMERICAN,
        spec_all_presets()[2].name@ == "plexi_crunch"@,
        spec_all_presets()[2].num_stages == 3,
        spec_all_presets()[2].tone_stack_type == ToneStackType::Marshall,
        spec_all_presets()[2].cabinet_ir_index == IR_2X12_BRITISH,
        spec_all_presets()[3].name@ == "brit_high"@,
        spec_all_presets()[3].num_stages == 3,
        spec_all_presets()[3].tone_stack_type == ToneStackType::Marshall,
        spec_all_presets()[3].cabinet_ir_index == IR_4X12_HEAVY,
        spec_all_presets()[4].name@ == "ac30_chime"@,
        spec_all_presets()[4].num_stages == 3,
        spec_all_presets()[4].tone_stack_type == ToneStackType::Vox,
        spec_all_presets()[4].cabinet_ir_index == IR_2X12_BRITISH,
        spec_all_presets()[5].name@ == "recto_heavy"@,
        spec_all_presets()[5].num_stages == 4,
        spec_all_presets()[5].tone_stack_type == ToneStackType::Fender,
        spec_all_presets()[5].cabinet_ir_index == IR_4X12_HEAVY,
        forall|i: int|
            0 <= i < spec_all_presets().len() ==> #[trigger] spec_all_presets()[i].cabinet_ir_index
                != IR_1X10_VINTAGE,
{
}

/// Every preset has its own name, and none is empty: a name picks out at
/// most one preset.
pub proof fn lemma_preset_names_distinct()
    ensures
        forall|i: int, j: int|
            0 <= i < spec_all_presets().len() && 0 <= j < spec_all_presets().len() && i != j
                ==> spec_all_presets()[i].name@ != spec_all_presets()[j].name@,
        forall|i: int|
            0 <= i < spec_all_presets().len() ==> spec_all_presets()[i].name@.len() > 0,
{
    reveal_strlit("clean_twin");
    reveal_strlit("tweed_deluxe");
    reveal_strlit("plexi_crunch");
    reveal_strlit("brit_high");
    reveal_strlit("ac30_chime");
    reveal_strlit("recto_heavy");
    let s = spec_all_presets();
    assert(s[0].name@[0] != s[4].name@[0]);
    assert(s[1].name@[0] != s[2].name@[0]);
    assert forall|i: int, j: int| 0 <= i < s.len() && 0 <= j < s.len() && i != j implies s[i].name@
        != s[j].name@ by {
        assert(s[i].name@.len() != s[j].name@.len() || s[i].name@[0] != s[j].name@[0]);
    }
}

/// Looking a preset up by its own name finds exactly that preset: any preset
/// in the list that carries the name of the `i`-th one is the `i`-th one.
pub proof fn lemma_lookup_by_own_name(i: int, p: AmpPreset)
    requires
        0 <= i < spec_all_presets().len(),
        p.name@ == spec_all_presets()[i].name@,
        exists|j: int| 0 <= j < spec_all_presets().len() && spec_all_presets()[j] == p,
    ensures
        p == spec_all_presets()[i],
{
    lemma_preset_names_distinct();
}

/// Every preset uses one to four preamp stages and one of the four cabinet
/// impulse responses.
pub proof fn lemma_presets_in_range()
    ensures
        forall|i: int|
            0 <= i < spec_all_presets().len() ==> 1 <= #[trigger] spec_all_presets()[i].num_stages
                <= crate::preamp::MAX_STAGES,
        forall|i: int|
            0 <= i < spec_all_presets().len() ==> #[trigger] spec_all_presets()[i].cabinet_ir_index
                < crate::cabinet_irs::CABINET_IR_COUNT,
{
}

} // verus!
