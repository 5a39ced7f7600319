use rf_comp::contract::{
    choice, decibels, index_of, meter, milliseconds, pages, parameter, parameter_index, parameters,
    percent, switch, Control, Kind, Taper, PARAMETER_COUNT, PREVIOUS_PARAMETER_COUNTS, RATIO_MAX,
};
use rf_comp::index::{
    sidechain_corner_hz, ATTACK, AUTO_MAKEUP, AUTO_RELEASE, BYPASS, DETECTOR, DETECTOR_PEAK,
    DETECTOR_RMS, INPUT_LEVEL, KNEE, LINK, MAKEUP, MIX, OUTPUT_LEVEL, RANGE, RATIO, REDUCTION,
    RELEASE, SIDECHAIN_HPF, SIDECHAIN_HPF_HZ, SIDECHAIN_HPF_OFF, SIDECHAIN_LISTEN, THRESHOLD,
};

#[test]
fn every_parameter_declares_its_own_index_and_a_known_page() {
    let parameters = parameters();
    let pages = pages();
    for (position, spec) in parameters.iter().enumerate() {
        assert_eq!(spec.index as usize, position, "{}", spec.id);
        assert!(
            pages.iter().any(|page| page.id == spec.page),
            "{} refers to an undeclared page",
            spec.id
        );
    }
}

#[test]
fn parameter_identifiers_are_unique_and_host_legal() {
    let parameters = parameters();
    for (position, spec) in parameters.iter().enumerate() {
        assert!(
            spec.id.bytes().all(|byte| byte.is_ascii_lowercase()
                || byte.is_ascii_digit()
                || b".-_".contains(&byte)),
            "{} is not a legal RackForge identifier",
            spec.id
        );
        for other in &parameters[position + 1..] {
            assert_ne!(spec.id, other.id);
        }
    }
}

#[test]
fn a_logarithmic_taper_never_starts_at_zero() {
    for spec in parameters().iter() {
        if let Kind::Float {
            taper: Taper::Logarithmic,
            minimum,
            ..
        } = spec.kind
        {
            assert!(minimum > 0, "{} tapers logarithmically from zero", spec.id);
        }
    }
}

#[test]
fn named_indexes_point_at_the_identifiers_they_claim() {
    let parameters = parameters();
    let expect = |index: u32, id: &str| assert_eq!(parameters[index as usize].id, id);
    expect(THRESHOLD, "comp.threshold");
    expect(RATIO, "comp.ratio");
    expect(ATTACK, "comp.attack");
    expect(RELEASE, "comp.release");
    expect(AUTO_RELEASE, "comp.auto_release");
    expect(KNEE, "comp.knee");
    expect(DETECTOR, "comp.detector");
    expect(SIDECHAIN_HPF, "comp.sidechain_hpf");
    expect(LINK, "comp.link");
    expect(MAKEUP, "output.makeup");
    expect(AUTO_MAKEUP, "output.auto_makeup");
    expect(MIX, "output.mix");
    expect(BYPASS, "output.bypass");
    expect(REDUCTION, "output.reduction");
    expect(RANGE, "comp.range");
    expect(SIDECHAIN_LISTEN, "comp.sidechain_listen");
    expect(INPUT_LEVEL, "meter.input");
    expect(OUTPUT_LEVEL, "meter.output");
}

#[test]
fn the_choices_match_their_named_values() {
    let parameters = parameters();
    let Kind::Enum { choices, .. } = parameters[DETECTOR as usize].kind else {
        panic!("the detector is a choice");
    };
    assert_eq!(choices[DETECTOR_PEAK as usize], "Peak");
    assert_eq!(choices[DETECTOR_RMS as usize], "RMS");
    let Kind::Enum { choices, .. } = parameters[SIDECHAIN_HPF as usize].kind else {
        panic!("the sidechain filter is a choice");
    };
    assert_eq!(choices.len(), SIDECHAIN_HPF_HZ.len());
    assert_eq!(choices[SIDECHAIN_HPF_OFF as usize], "Off");
    assert_eq!(SIDECHAIN_HPF_HZ[SIDECHAIN_HPF_OFF as usize], 0);
}

#[test]
fn control_names_are_the_schema_words() {
    assert_eq!(Control::Knob.as_str(), "knob");
    assert_eq!(Control::Toggle.as_str(), "toggle");
    assert_eq!(Control::List.as_str(), "list");
    assert_eq!(Control::Meter.as_str(), "meter");
}

#[test]
fn the_pages_are_in_render_order() {
    let pages = pages();
    let ids: Vec<&str> = pages.iter().map(|page| page.id).collect();
    assert_eq!(ids, vec!["compressor", "timing", "output"]);
    assert_eq!(pages[1].name, "Timing & Detector");
    for (position, page) in pages.iter().enumerate() {
        assert_eq!(page.order as usize, position);
    }
}

#[test]
fn the_table_has_one_entry_per_index_and_nothing_past_it() {
    assert_eq!(parameters().len(), PARAMETER_COUNT);
    assert!(parameter(PARAMETER_COUNT as u32 - 1).is_some());
    assert!(parameter(PARAMETER_COUNT as u32).is_none());
    assert!(parameter(u32::MAX).is_none());
    assert_eq!(PREVIOUS_PARAMETER_COUNTS, [14]);
}

#[test]
fn the_ratio_knob_tops_out_at_twenty_to_one() {
    let ratio = parameter(RATIO).unwrap();
    let Kind::Float {
        minimum,
        maximum,
        default,
        unit,
        taper,
        ..
    } = ratio.kind
    else {
        panic!("the ratio is continuous");
    };
    assert_eq!((minimum, maximum, default), (10, RATIO_MAX, 40));
    assert_eq!(RATIO_MAX, 200);
    assert_eq!(unit, Some(":1"));
    assert!(taper == Taper::Logarithmic);
}

#[test]
fn the_constructors_fill_in_their_kind() {
    let level = decibels(0, "a.level", "Level", "output", 2, -600, 0, -180);
    assert!(matches!(
        level.kind,
        Kind::Float { minimum: -600, maximum: 0, default: -180, step: 1, unit: Some("dB"), taper: Taper::Linear }
    ));
    assert!(matches!(level.control, Control::Knob));
    let time = milliseconds(1, "a.time", "Time", "timing", 0, 1, 1000, 100, 1);
    assert!(matches!(time.kind, Kind::Float { unit: Some("ms"), taper: Taper::Logarithmic, .. }));
    let share = percent(2, "a.share", "Share", "output", 0, 1000);
    assert!(matches!(share.kind, Kind::Float { minimum: 0, maximum: 1000, step: 10, unit: Some("%"), .. }));
    let toggle = switch(3, "a.toggle", "Toggle", "output", 0, true);
    assert!(matches!(toggle.kind, Kind::Boolean { default: true }));
    assert!(matches!(toggle.control, Control::Toggle));
    let list = choice(4, "a.list", "List", "timing", 0, 1, &["x", "y"]);
    assert!(matches!(list.kind, Kind::Enum { default: 1, .. }));
    assert!(matches!(list.control, Control::List));
    let reading = meter(5, "a.meter", "Meter", 9, -400, 0);
    assert_eq!(reading.page, "output");
    assert!(reading.is_meter());
    assert!(!level.is_meter());
}

#[test]
fn defaults_are_stated_in_tenths() {
    assert_eq!(parameter(THRESHOLD).unwrap().default_value(), -180);
    assert_eq!(parameter(ATTACK).unwrap().default_value(), 100);
    assert_eq!(parameter(RELEASE).unwrap().default_value(), 1200);
    assert_eq!(parameter(AUTO_RELEASE).unwrap().default_value(), 0);
    assert_eq!(parameter(DETECTOR).unwrap().default_value(), 10);
    assert_eq!(parameter(LINK).unwrap().default_value(), 1000);
    assert_eq!(parameter(REDUCTION).unwrap().default_value(), 0);
    assert_eq!(parameter(INPUT_LEVEL).unwrap().default_value(), 120);
    let on = switch(0, "a.on", "On", "output", 0, true);
    assert_eq!(on.default_value(), 10);
}

#[test]
fn canonicalize_keeps_what_the_contract_allows_and_refuses_the_rest() {
    let threshold = parameter(THRESHOLD).unwrap();
    assert_eq!(threshold.canonicalize(-600), Some(-600));
    assert_eq!(threshold.canonicalize(0), Some(0));
    assert_eq!(threshold.canonicalize(-601), None);
    assert_eq!(threshold.canonicalize(1), None);
    let bypass = parameter(BYPASS).unwrap();
    assert_eq!(bypass.canonicalize(0), Some(0));
    assert_eq!(bypass.canonicalize(10), Some(10));
    assert_eq!(bypass.canonicalize(5), None);
    assert_eq!(bypass.canonicalize(-10), None);
    let filter = parameter(SIDECHAIN_HPF).unwrap();
    assert_eq!(filter.canonicalize(0), Some(0));
    assert_eq!(filter.canonicalize(30), Some(30));
    assert_eq!(filter.canonicalize(40), None);
    assert_eq!(filter.canonicalize(15), None);
    assert_eq!(filter.canonicalize(-10), None);
    let reduction = parameter(REDUCTION).unwrap();
    assert_eq!(reduction.canonicalize(-400), Some(-400));
    assert_eq!(reduction.canonicalize(-401), None);
}

#[test]
fn a_key_names_a_parameter_by_number_or_identifier() {
    assert_eq!(index_of("comp.ratio"), Some(RATIO));
    assert_eq!(index_of("meter.output"), Some(OUTPUT_LEVEL));
    assert_eq!(index_of("comp.ratio "), None);
    assert_eq!(index_of("nowhere"), None);
    assert_eq!(parameter_index("comp.threshold"), Some(THRESHOLD));
    assert_eq!(parameter_index("5"), Some(5));
    assert_eq!(parameter_index("+7"), Some(7));
    assert_eq!(parameter_index("99"), Some(99));
    assert_eq!(parameter_index("4294967295"), Some(u32::MAX));
    assert_eq!(parameter_index("4294967296"), None);
    assert_eq!(parameter_index("-1"), None);
    assert_eq!(parameter_index("+"), None);
    assert_eq!(parameter_index(""), None);
    assert_eq!(parameter_index("nowhere"), None);
}

#[test]
fn a_filter_choice_names_its_corner() {
    assert_eq!(sidechain_corner_hz(0), 0);
    assert_eq!(sidechain_corner_hz(1), 60);
    assert_eq!(sidechain_corner_hz(2), 120);
    assert_eq!(sidechain_corner_hz(3), 250);
    assert_eq!(sidechain_corner_hz(4), 0);
}

#[test]
fn every_default_is_accepted_as_it_is() {
    for spec in parameters().iter() {
        let default = spec.default_value();
        assert_eq!(spec.canonicalize(default), Some(default), "{}", spec.id);
    }
}

#[test]
fn the_meters_are_exactly_the_readings() {
    for spec in parameters().iter() {
        let reading = [REDUCTION, INPUT_LEVEL, OUTPUT_LEVEL].contains(&spec.index);
        assert_eq!(spec.is_meter(), reading, "{}", spec.id);
        assert_eq!(matches!(spec.control, Control::Meter), reading, "{}", spec.id);
    }
}
