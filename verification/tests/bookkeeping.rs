use guitar_amp_dsp::cabinet::{ir_length, MAX_IR_LENGTH};
use guitar_amp_dsp::cabinet_irs::{cabinet_ir_slot, IR_1X10_VINTAGE, IR_1X12_AMERICAN};
use guitar_amp_dsp::delay_line::DelayCursor;
use guitar_amp_dsp::fir_filter::{taps_after_update, FilterInfo, FilterKind, DESIGN_TAPS, MAX_TAPS};
use guitar_amp_dsp::preamp::{StageSlots, MAX_STAGES};

#[test]
fn cursor_taps_walk_backwards() {
    let mut c: DelayCursor<8> = DelayCursor::new();
    assert_eq!(c.write_pos(), 0);
    assert_eq!(c.tap(0), 0);
    assert_eq!(c.tap(1), 7);
    assert_eq!(c.tap(7), 1);
    c.advance();
    c.advance();
    c.advance();
    assert_eq!(c.write_pos(), 3);
    assert_eq!(c.tap(0), 3);
    assert_eq!(c.tap(3), 0);
    assert_eq!(c.tap(4), 7);
    c.reset();
    assert_eq!(c.write_pos(), 0);
}

#[test]
fn cursor_wraps_after_last_slot() {
    let mut c: DelayCursor<512> = DelayCursor::new();
    for _ in 0..511 {
        c.advance();
    }
    assert_eq!(c.write_pos(), 511);
    c.advance();
    assert_eq!(c.write_pos(), 0);
    for _ in 0..1000 {
        c.advance();
    }
    assert_eq!(c.write_pos(), 1000 % 512);
}

#[test]
fn step_back_matches_tap() {
    let mut c: DelayCursor<128> = DelayCursor::new();
    for _ in 0..5 {
        c.advance();
    }
    let mut idx = c.write_pos();
    for i in 0..128 {
        assert_eq!(idx, c.tap(i));
        idx = DelayCursor::<128>::step_back(idx);
    }
    assert_eq!(DelayCursor::<128>::step_back(0), 127);
    assert_eq!(DelayCursor::<128>::step_back(1), 0);
}

#[test]
fn stage_slots_clamp_count() {
    let s = StageSlots::new(0, || 1u32);
    assert_eq!(s.num_stages(), 1);
    let s = StageSlots::new(10, || 1u32);
    assert_eq!(s.num_stages(), MAX_STAGES);
    let s = StageSlots::new(3, || 1u32);
    assert_eq!(s.num_stages(), 3);
    assert_eq!(s.get_stage(2), Some(&1));
    assert_eq!(s.get_stage(3), None);
}

#[test]
fn stage_slots_regrown_stages_are_fresh() {
    let mut s = StageSlots::new(4, || 0u32);
    for i in 0..4 {
        s.set_stage(i, 10 + i as u32);
    }
    s.set_num_stages(1, || 0u32);
    assert_eq!(s.num_stages(), 1);
    assert_eq!(s.get_stage(1), None);
    s.set_stage(2, 99); // inactive: ignored
    s.set_num_stages(4, || 0u32);
    assert_eq!(s.get_stage(0), Some(&10));
    assert_eq!(s.get_stage(1), Some(&0));
    assert_eq!(s.get_stage(2), Some(&0));
    assert_eq!(s.get_stage(3), Some(&0));
}

#[test]
fn stage_slots_growth_gives_default_stage() {
    let mut s = StageSlots::new(4, || 1u8);
    s.set_stage(3, 9);
    s.set_num_stages(2, || 1u8);
    s.set_num_stages(4, || 1u8);
    assert_eq!(s.num_stages(), 4);
    assert_eq!(s.get_stage(3), Some(&1));
}

#[test]
fn stage_slots_fill_new_slots() {
    let mut s = StageSlots::new(1, || 5u32);
    s.set_num_stages(3, || 7u32);
    assert_eq!(s.get_stage(0), Some(&5));
    assert_eq!(s.get_stage(1), Some(&7));
    assert_eq!(s.get_stage(2), Some(&7));
    if let Some(st) = s.stage_mut(1) {
        *st += 1;
    }
    assert_eq!(s.get_stage(1), Some(&8));
    assert!(s.stage_mut(3).is_none());
    s.set_num_stages(0, || 0u32);
    assert_eq!(s.num_stages(), 1);
    assert_eq!(s.stage_mut(2).map(|x| *x), Some(7));
}

#[test]
fn fir_tap_counts() {
    assert_eq!(MAX_TAPS, 128);
    assert_eq!(taps_after_update(FilterKind::Bypass, 63, 0), 1);
    assert_eq!(taps_after_update(FilterKind::LowPass, 1, 0), DESIGN_TAPS);
    assert_eq!(taps_after_update(FilterKind::HighPass, 1, 0), 63);
    assert_eq!(taps_after_update(FilterKind::BandPass, 1, 0), 63);
    assert_eq!(taps_after_update(FilterKind::Parametric, 1, 0), 63);
    assert_eq!(taps_after_update(FilterKind::Custom, 63, 0), 63);
    assert_eq!(taps_after_update(FilterKind::Custom, 63, 5), 5);
    assert_eq!(taps_after_update(FilterKind::Custom, 63, 128), 128);
    assert_eq!(taps_after_update(FilterKind::Custom, 63, 500), 128);
    let info = FilterInfo { num_taps: 1, sample_rate: 48000, is_updating: false };
    let copy = info.clone();
    assert_eq!(copy.num_taps, 1);
    assert_eq!(copy.sample_rate, 48000);
    assert!(!copy.is_updating);
}

#[test]
fn cabinet_selection_and_lengths() {
    assert_eq!(cabinet_ir_slot(0), IR_1X12_AMERICAN);
    assert_eq!(cabinet_ir_slot(3), IR_1X10_VINTAGE);
    assert_eq!(cabinet_ir_slot(4), IR_1X12_AMERICAN);
    assert_eq!(cabinet_ir_slot(999), IR_1X12_AMERICAN);
    assert_eq!(MAX_IR_LENGTH, 512);
    assert_eq!(ir_length(256), 256);
    assert_eq!(ir_length(512), 512);
    assert_eq!(ir_length(600), 512);
    assert_eq!(ir_length(0), 0);
}
