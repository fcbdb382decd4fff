use guitar_amp_dsp::cabinet_irs::{
    CABINET_IR_COUNT, IR_1X10_VINTAGE, IR_1X12_AMERICAN, IR_2X12_BRITISH, IR_4X12_HEAVY,
};
use guitar_amp_dsp::preset::{
    ac30_chime, all_presets, brit_high, clean_twin, plexi_crunch, preset_by_name, preset_count,
    recto_heavy, tweed_deluxe,
};
use guitar_amp_dsp::tonestack::ToneStackType;

#[test]
fn test_clean_twin_exists() {
    assert_eq!(clean_twin().name, "clean_twin");
}

#[test]
fn test_tweed_deluxe_exists() {
    assert_eq!(tweed_deluxe().name, "tweed_deluxe");
}

#[test]
fn test_plexi_crunch_exists() {
    assert_eq!(plexi_crunch().name, "plexi_crunch");
}

#[test]
fn test_brit_high_exists() {
    assert_eq!(brit_high().name, "brit_high");
}

#[test]
fn test_ac30_chime_exists() {
    assert_eq!(ac30_chime().name, "ac30_chime");
}

#[test]
fn test_recto_heavy_exists() {
    assert_eq!(recto_heavy().name, "recto_heavy");
}

#[test]
fn test_clean_twin_has_two_stages() {
    assert_eq!(clean_twin().num_stages, 2);
}

#[test]
fn test_tweed_deluxe_has_two_stages() {
    assert_eq!(tweed_deluxe().num_stages, 2);
}

#[test]
fn test_plexi_crunch_has_three_stages() {
    assert_eq!(plexi_crunch().num_stages, 3);
}

#[test]
fn test_brit_high_has_three_stages() {
    assert_eq!(brit_high().num_stages, 3);
}

#[test]
fn test_ac30_chime_has_three_stages() {
    assert_eq!(ac30_chime().num_stages, 3);
}

#[test]
fn test_recto_heavy_has_four_stages() {
    assert_eq!(recto_heavy().num_stages, 4);
}

#[test]
fn test_clean_twin_fender_stack() {
    assert_eq!(clean_twin().tone_stack_type, ToneStackType::Fender);
}

#[test]
fn test_tweed_deluxe_fender_stack() {
    assert_eq!(tweed_deluxe().tone_stack_type, ToneStackType::Fender);
}

#[test]
fn test_plexi_crunch_marshall_stack() {
    assert_eq!(plexi_crunch().tone_stack_type, ToneStackType::Marshall);
}

#[test]
fn test_brit_high_marshall_stack() {
    assert_eq!(brit_high().tone_stack_type, ToneStackType::Marshall);
}

#[test]
fn test_ac30_chime_vox_stack() {
    assert_eq!(ac30_chime().tone_stack_type, ToneStackType::Vox);
}

#[test]
fn test_recto_heavy_fender_stack() {
    assert_eq!(recto_heavy().tone_stack_type, ToneStackType::Fender);
}

#[test]
fn test_all_presets_returns_six() {
    assert_eq!(all_presets().len(), 6);
}

#[test]
fn test_all_presets_contains_all_names() {
    let names: Vec<&str> = all_presets().iter().map(|p| p.name).collect();
    assert!(names.contains(&"clean_twin"));
    assert!(names.contains(&"tweed_deluxe"));
    assert!(names.contains(&"plexi_crunch"));
    assert!(names.contains(&"brit_high"));
    assert!(names.contains(&"ac30_chime"));
    assert!(names.contains(&"recto_heavy"));
}

#[test]
fn test_preset_count() {
    assert_eq!(preset_count(), 6);
    assert_eq!(preset_count(), all_presets().len());
}

#[test]
fn test_preset_by_name_finds_clean_twin() {
    let preset = preset_by_name("clean_twin");
    assert!(preset.is_some());
    assert_eq!(preset.unwrap().name, "clean_twin");
}

#[test]
fn test_preset_by_name_finds_all_presets() {
    assert!(preset_by_name("clean_twin").is_some());
    assert!(preset_by_name("tweed_deluxe").is_some());
    assert!(preset_by_name("plexi_crunch").is_some());
    assert!(preset_by_name("brit_high").is_some());
    assert!(preset_by_name("ac30_chime").is_some());
    assert!(preset_by_name("recto_heavy").is_some());
}

#[test]
fn test_preset_by_name_returns_none_for_unknown() {
    assert!(preset_by_name("unknown_preset").is_none());
    assert!(preset_by_name("").is_none());
    assert!(preset_by_name("Clean_Twin").is_none()); // Case sensitive
}

#[test]
fn test_all_presets_have_valid_num_stages() {
    for preset in all_presets() {
        assert!(
            preset.num_stages >= 1 && preset.num_stages <= 4,
            "{} has invalid num_stages: {}",
            preset.name,
            preset.num_stages
        );
    }
}

#[test]
fn test_all_presets_have_valid_cabinet_index() {
    for preset in all_presets() {
        assert!(
            preset.cabinet_ir_index <= 3,
            "{} has invalid cabinet_ir_index: {}",
            preset.name,
            preset.cabinet_ir_index
        );
    }
}

#[test]
fn test_preset_is_copy() {
    let preset = clean_twin();
    let copy = preset;
    assert_eq!(preset.name, copy.name);
}

#[test]
fn test_preset_clone() {
    let preset = plexi_crunch();
    let cloned = preset.clone();
    assert_eq!(preset.name, cloned.name);
    assert_eq!(preset.num_stages, cloned.num_stages);
}

#[test]
fn test_all_preset_names_unique() {
    let presets = all_presets();
    for i in 0..presets.len() {
        for j in (i + 1)..presets.len() {
            assert_ne!(
                presets[i].name, presets[j].name,
                "Duplicate preset name: {}",
                presets[i].name
            );
        }
    }
}

#[test]
fn test_index_constants() {
    assert_eq!(IR_1X12_AMERICAN, 0);
    assert_eq!(IR_2X12_BRITISH, 1);
    assert_eq!(IR_4X12_HEAVY, 2);
    assert_eq!(IR_1X10_VINTAGE, 3);
    assert_eq!(CABINET_IR_COUNT, 4);
}

#[test]
fn test_tone_stack_type_default() {
    let default_type = ToneStackType::default();
    assert_eq!(default_type, ToneStackType::Fender);
}

#[test]
fn preset_lookup_returns_full_preset() {
    for preset in all_presets() {
        let found = preset_by_name(preset.name).unwrap();
        assert_eq!(found.name, preset.name);
        assert_eq!(found.num_stages, preset.num_stages);
        assert_eq!(found.tone_stack_type, preset.tone_stack_type);
        assert_eq!(found.cabinet_ir_index, preset.cabinet_ir_index);
    }
    assert_eq!(preset_by_name("brit_high").unwrap().cabinet_ir_index, 2);
    assert_eq!(preset_by_name("ac30_chime").unwrap().cabinet_ir_index, 1);
    assert!(preset_by_name("clean_twin ").is_none());
    assert!(preset_by_name("recto_heav").is_none());
}

#[test]
fn presets_in_display_order() {
    let names: Vec<&str> = all_presets().iter().map(|p| p.name).collect();
    assert_eq!(
        names,
        vec!["clean_twin", "tweed_deluxe", "plexi_crunch", "brit_high", "ac30_chime", "recto_heavy"]
    );
}
