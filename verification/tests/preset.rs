use rf_comp::index::{DETECTOR, DETECTOR_RMS, MIX, RANGE, RATIO, SIDECHAIN_HPF, THRESHOLD};
use rf_comp::preset::{preset, presets, settings_for, PRESET_COUNT};
use rf_comp::settings::Settings;

#[test]
fn every_preset_loads_and_stays_inside_the_contract() {
    for preset in presets().iter() {
        assert!(
            settings_for(preset.id).is_some(),
            "{} does not load",
            preset.id
        );
    }
    assert!(settings_for("nowhere").is_none());
}

#[test]
fn preset_identifiers_are_unique() {
    let presets = presets();
    for (position, preset) in presets.iter().enumerate() {
        for other in &presets[position + 1..] {
            assert_ne!(preset.id, other.id);
        }
    }
}

#[test]
fn the_default_preset_is_the_defaults() {
    let preset = settings_for("default").unwrap();
    assert_eq!(preset.as_array(), Settings::default().as_array());
}

#[test]
fn a_preset_lays_its_values_over_the_defaults() {
    let glue = settings_for("piano_glue").unwrap();
    assert_eq!(glue.value(THRESHOLD), -240);
    assert_eq!(glue.value(RATIO), 20);
    assert_eq!(glue.value(DETECTOR), 10 * DETECTOR_RMS as i32);
    assert_eq!(glue.value(RANGE), 80);
    assert_eq!(glue.value(SIDECHAIN_HPF), 0);
    let crush = settings_for("parallel_crush").unwrap();
    assert_eq!(crush.value(MIX), 400);
}

#[test]
fn the_catalog_has_seven_entries() {
    assert_eq!(presets().len(), PRESET_COUNT);
    assert_eq!(PRESET_COUNT, 7);
    assert!(preset(PRESET_COUNT).is_none());
    assert_eq!(preset(6).unwrap().id, "level_rider");
    assert_eq!(preset(0).unwrap().values.len(), 0);
}

#[test]
fn a_preset_id_must_match_exactly() {
    assert!(settings_for("Default").is_none());
    assert!(settings_for("default ").is_none());
    assert!(settings_for("").is_none());
}
