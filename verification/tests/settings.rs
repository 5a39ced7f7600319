use rf_comp::contract::PARAMETER_COUNT;
use rf_comp::index::{
    AUTO_RELEASE, BYPASS, DETECTOR, INPUT_LEVEL, KNEE, MAKEUP, RANGE, REDUCTION, SIDECHAIN_HPF,
    THRESHOLD,
};
use rf_comp::settings::Settings;

#[test]
fn defaults_round_trip_through_validation() {
    let settings = Settings::default();
    let restored = Settings::from_array(settings.as_array()).expect("defaults are valid");
    assert_eq!(settings.as_array(), restored.as_array());
}

#[test]
fn the_meter_is_not_a_setting() {
    let mut settings = Settings::default();
    assert!(!settings.set(REDUCTION, -60));
    assert!(settings.set(THRESHOLD, -300));
    assert!(!settings.set(THRESHOLD, 10));
    assert!(!settings.set(BYPASS, 5));
    assert!(settings.set(BYPASS, 10));
    assert!(settings.set(DETECTOR, 10));
    assert!(!settings.set(DETECTOR, 20));
    assert!(!settings.set(DETECTOR, 5));
    assert!(settings.set(SIDECHAIN_HPF, 30));
    assert!(!settings.set(SIDECHAIN_HPF, 40));
}

#[test]
fn a_set_value_reads_back_and_a_refused_one_changes_nothing() {
    let mut settings = Settings::default();
    assert!(settings.set(THRESHOLD, -245));
    assert_eq!(settings.get(THRESHOLD), Some(-245));
    assert_eq!(settings.value(THRESHOLD), -245);
    let before = settings.as_array();
    assert!(!settings.set(THRESHOLD, -601));
    assert!(!settings.set(PARAMETER_COUNT as u32, 0));
    assert_eq!(settings.as_array(), before);
    assert_eq!(settings.get(PARAMETER_COUNT as u32), None);
}

#[test]
fn a_switch_is_engaged_from_half_way() {
    let mut settings = Settings::default();
    assert!(!settings.engaged(BYPASS));
    assert!(settings.set(BYPASS, 10));
    assert!(settings.engaged(BYPASS));
}

#[test]
fn the_defaults_are_the_table_defaults() {
    let values = Settings::default().as_array();
    assert_eq!(values[THRESHOLD as usize], -180);
    assert_eq!(values[KNEE as usize], 60);
    assert_eq!(values[DETECTOR as usize], 10);
    assert_eq!(values[RANGE as usize], 600);
    assert_eq!(values[REDUCTION as usize], 0);
    assert_eq!(values[INPUT_LEVEL as usize], 120);
}

#[test]
fn an_older_block_keeps_the_newer_defaults() {
    let mut values = Settings::default().as_array();
    values[THRESHOLD as usize] = -300;
    values[AUTO_RELEASE as usize] = 10;
    let restored = Settings::from_slice(&values[..14]).expect("the earlier layout is read");
    assert_eq!(restored.value(THRESHOLD), -300);
    assert_eq!(restored.value(AUTO_RELEASE), 10);
    assert_eq!(restored.value(RANGE), 600);
}

#[test]
fn a_length_with_no_layout_is_refused() {
    let values = Settings::default().as_array();
    assert!(Settings::from_slice(&values[..13]).is_none());
    assert!(Settings::from_slice(&values[..15]).is_none());
    assert!(Settings::from_slice(&[]).is_none());
}

#[test]
fn one_value_outside_the_contract_refuses_the_whole_block() {
    let mut values = Settings::default().as_array();
    values[MAKEUP as usize] = 241;
    assert!(Settings::from_array(values).is_none());
}

#[test]
fn a_stored_meter_reading_is_ignored() {
    let mut values = Settings::default().as_array();
    values[REDUCTION as usize] = -60;
    values[INPUT_LEVEL as usize] = 9_999;
    let restored = Settings::from_array(values).expect("meters are not validated");
    assert_eq!(restored.value(REDUCTION), 0);
    assert_eq!(restored.value(INPUT_LEVEL), 120);
}
