//! Factory settings.
//!
//! A preset here is nothing but a list of parameter values, in tenths of each
//! parameter's unit. The packager renders the same table, so the catalog
//! RackForge shows and the settings the engine loads cannot disagree.
use vstd::prelude::*;

use crate::contract::PARAMETER_COUNT;
use crate::index::{
    ATTACK, AUTO_MAKEUP, AUTO_RELEASE, DETECTOR, DETECTOR_PEAK, DETECTOR_RMS, KNEE, MIX, RANGE,
    RATIO, RELEASE, SIDECHAIN_HPF, THRESHOLD,
};
use crate::settings::{
    admits, default_values, is_valid_block, is_writable, lemma_default_block_is_valid,
    lemma_the_declared_defaults, Settings,
};
use crate::text::same_text;

verus! {

pub struct Preset {
    pub id: &'static str,
    pub name: &'static str,
    pub description: &'static str,
    /// `(index, value)` pairs, applied over the defaults in order.
    pub values: &'static [(u32, i32)],
}

pub struct PresetView {
    pub id: Seq<char>,
    pub name: Seq<char>,
    pub description: Seq<char>,
    pub values: Seq<(u32, i32)>,
}

impl View for Preset {
    type V = PresetView;

    open spec fn view(&self) -> PresetView {
        PresetView {
            id: self.id@,
            name: self.name@,
            description: self.description@,
            values: self.values@,
        }
    }
}

pub const PRESET_COUNT: usize = 7;

pub open spec fn declared_preset(p: int) -> PresetView {
    if p == 0 {
        PresetView {
            id: "default"@,
            name: "Default"@,
            description: "Four to one over a six-decibel knee at minus eighteen: a general-purpose starting point."@,
            values: seq![],
        }
    } else if p == 1 {
        PresetView {
            id: "piano_glue"@,
            name: "Piano Glue"@,
            description: "Two to one over a wide knee, a slow attack and the release left to the programme: holds a piano together without touching its transients."@,
            values: seq![
                (THRESHOLD, -240i32),
                (RATIO, 20i32),
                (ATTACK, 300i32),
                (RELEASE, 2000i32),
                (AUTO_RELEASE, 10i32),
                (KNEE, 120i32),
                (DETECTOR, (10 * DETECTOR_RMS) as i32),
                (MIX, 1000i32),
                (RANGE, 80i32),
            ],
        }
    } else if p == 2 {
        PresetView {
            id: "peak_tamer"@,
            name: "Peak Tamer"@,
            description: "Eight to one, a millisecond of attack, a peak detector with the low end filtered out of it: catches what sticks out."@,
            values: seq![
                (THRESHOLD, -120i32),
                (RATIO, 80i32),
                (ATTACK, 10i32),
                (RELEASE, 800i32),
                (KNEE, 30i32),
                (DETECTOR, (10 * DETECTOR_PEAK) as i32),
                (SIDECHAIN_HPF, 10i32),
                (RANGE, 60i32),
            ],
        }
    } else if p == 3 {
        PresetView {
            id: "parallel_crush"@,
            name: "Parallel Crush"@,
            description: "Ten to one from minus thirty, made up automatically and blended at forty percent: density under the dry signal."@,
            values: seq![
                (THRESHOLD, -300i32),
                (RATIO, 100i32),
                (ATTACK, 50i32),
                (RELEASE, 1500i32),
                (KNEE, 60i32),
                (MIX, 400i32),
                (AUTO_MAKEUP, 10i32),
                (RANGE, 120i32),
            ],
        }
    } else if p == 4 {
        PresetView {
            id: "vocal_smooth"@,
            name: "Vocal-ish Smooth"@,
            description: "Three to one over a nine-decibel knee, the release following the programme: level without a hand on the fader."@,
            values: seq![
                (THRESHOLD, -200i32),
                (RATIO, 30i32),
                (ATTACK, 150i32),
                (RELEASE, 1500i32),
                (AUTO_RELEASE, 10i32),
                (KNEE, 90i32),
                (RANGE, 80i32),
            ],
        }
    } else if p == 5 {
        PresetView {
            id: "drum_bus"@,
            name: "Drum Bus"@,
            description: "Four to one with a twenty-millisecond attack and six decibels of range: adds movement while keeping the first hit intact."@,
            values: seq![
                (THRESHOLD, -180i32),
                (RATIO, 40i32),
                (ATTACK, 200i32),
                (RELEASE, 1000i32),
                (KNEE, 60i32),
                (DETECTOR, (10 * DETECTOR_PEAK) as i32),
                (SIDECHAIN_HPF, 10i32),
                (RANGE, 60i32),
            ],
        }
    } else {
        PresetView {
            id: "level_rider"@,
            name: "Level Rider"@,
            description: "Two to one over a broad knee with automatic release and eight decibels of range: restrained long-term levelling."@,
            values: seq![
                (THRESHOLD, -280i32),
                (RATIO, 20i32),
                (ATTACK, 400i32),
                (RELEASE, 3000i32),
                (AUTO_RELEASE, 10i32),
                (KNEE, 120i32),
                (RANGE, 80i32),
            ],
        }
    }
}

/// The preset at position `p`, or `None` past the end of the catalog.
pub fn preset(p: usize) -> (preset: Option<Preset>)
    ensures
        preset is Some <==> p < PRESET_COUNT,
        preset matches Some(found) ==> found@ == declared_preset(p as int),
{
    if p == 0 {
        let values: &'static [(u32, i32)] = &[];
        assert(values@ =~= declared_preset(0).values);
        Some(Preset {
            id: "default",
            name: "Default",
            description: "Four to one over a six-decibel knee at minus eighteen: a general-purpose starting point.",
            values,
        })
    } else if p == 1 {
        let values: &'static [(u32, i32)] = &[
            (THRESHOLD, -240),
            (RATIO, 20),
            (ATTACK, 300),
            (RELEASE, 2000),
            (AUTO_RELEASE, 10),
            (KNEE, 120),
            (DETECTOR, (10 * DETECTOR_RMS) as i32),
            (MIX, 1000),
            (RANGE, 80),
        ];
        assert(values@ =~= declared_preset(1).values);
        Some(Preset {
            id: "piano_glue",
            name: "Piano Glue",
            description: "Two to one over a wide knee, a slow attack and the release left to the programme: holds a piano together without touching its transients.",
            values,
        })
    } else if p == 2 {
        let values: &'static [(u32, i32)] = &[
            (THRESHOLD, -120),
            (RATIO, 80),
            (ATTACK, 10),
            (RELEASE, 800),
            (KNEE, 30),
            (DETECTOR, (10 * DETECTOR_PEAK) as i32),
            (SIDECHAIN_HPF, 10),
            (RANGE, 60),
        ];
        assert(values@ =~= declared_preset(2).values);
        Some(Preset {
            id: "peak_tamer",
            name: "Peak Tamer",
            description: "Eight to one, a millisecond of attack, a peak detector with the low end filtered out of it: catches what sticks out.",
            values,
        })
    } else if p == 3 {
        let values: &'static [(u32, i32)] = &[
            (THRESHOLD, -300),
            (RATIO, 100),
            (ATTACK, 50),
            (RELEASE, 1500),
            (KNEE, 60),
            (MIX, 400),
            (AUTO_MAKEUP, 10),
            (RANGE, 120),
        ];
        assert(values@ =~= declared_preset(3).values);
        Some(Preset {
            id: "parallel_crush",
            name: "Parallel Crush",
            description: "Ten to one from minus thirty, made up automatically and blended at forty percent: density under the dry signal.",
            values,
        })
    } else if p == 4 {
        let values: &'static [(u32, i32)] = &[
            (THRESHOLD, -200),
            (RATIO, 30),
            (ATTACK, 150),
            (RELEASE, 1500),
            (AUTO_RELEASE, 10),
            (KNEE, 90),
            (RANGE, 80),
        ];
        assert(values@ =~= declared_preset(4).values);
        Some(Preset {
            id: "vocal_smooth",
            name: "Vocal-ish Smooth",
            description: "Three to one over a nine-decibel knee, the release following the programme: level without a hand on the fader.",
            values,
        })
    } else if p == 5 {
        let values: &'static [(u32, i32)] = &[
            (THRESHOLD, -180),
            (RATIO, 40),
            (ATTACK, 200),
            (RELEASE, 1000),
            (KNEE, 60),
            (DETECTOR, (10 * DETECTOR_PEAK) as i32),
            (SIDECHAIN_HPF, 10),
            (RANGE, 60),
        ];
        assert(values@ =~= declared_preset(5).values);
        Some(Preset {
            id: "drum_bus",
            name: "Drum Bus",
            description: "Four to one with a twenty-millisecond attack and six decibels of range: adds movement while keeping the first hit intact.",
            values,
        })
    } else if p == 6 {
        let values: &'static [(u32, i32)] = &[
            (THRESHOLD, -280),
            (RATIO, 20),
            (ATTACK, 400),
            (RELEASE, 3000),
            (AUTO_RELEASE, 10),
            (KNEE, 120),
            (RANGE, 80),
        ];
        assert(values@ =~= declared_preset(6).values);
        Some(Preset {
            id: "level_rider",
            name: "Level Rider",
            description: "Two to one over a broad knee with automatic release and eight decibels of range: restrained long-term levelling.",
            values,
        })
    } else {
        None
    }
}

/// The whole catalog, in order.
pub fn presets() -> (catalog: Vec<Preset>)
    ensures
        catalog@.len() == PRESET_COUNT,
        forall|p: int| 0 <= p < PRESET_COUNT ==> #[trigger] catalog@[p]@ == declared_preset(p),
{
    let mut catalog: Vec<Preset> = Vec::new();
    let mut p: usize = 0;
    while p < PRESET_COUNT
        invariant
            p <= PRESET_COUNT,
            catalog@.len() == p,
            forall|q: int| 0 <= q < p ==> #[trigger] catalog@[q]@ == declared_preset(q),
        decreases PRESET_COUNT - p,
    {
        if let Some(found) = preset(p) {
            catalog.push(found);
        }
        p += 1;
    }
    catalog
}

/// The block that a list of assignments leaves when applied in order over
/// `start`, or `None` as soon as one of them is refused.
pub open spec fn applied(start: Seq<i32>, assignments: Seq<(u32, i32)>) -> Option<Seq<i32>>
    decreases assignments.len(),
{
    if assignments.len() == 0 {
        Some(start)
    } else {
        match applied(start, assignments.drop_last()) {
            None => None,
            Some(before) => {
                let (index, value) = assignments.last();
                if is_writable(index as int) && admits(index as int, value as int) {
                    Some(before.update(index as int, value))
                } else {
                    None
                }
            },
        }
    }
}

/// The settings a preset describes: the defaults, with the preset's values
/// over them.
pub open spec fn preset_settings(p: int) -> Option<Seq<i32>> {
    applied(default_values(), declared_preset(p).values)
}

/// The settings a preset describes: the defaults, with the preset's values
/// over them. `None` for an id no preset carries.
pub fn settings_for(id: &str) -> (settings: Option<Settings>)
    ensures
        match settings {
            Some(s) => exists|p: int|
                0 <= p < PRESET_COUNT && #[trigger] declared_preset(p).id == id@
                    && preset_settings(p) == Some(s@),
            None => forall|p: int|
                0 <= p < PRESET_COUNT && #[trigger] declared_preset(p).id == id@
                    ==> preset_settings(p) is None,
        },
{
    let mut p: usize = 0;
    while p < PRESET_COUNT
        invariant
            p <= PRESET_COUNT,
            forall|q: int| 0 <= q < p ==> #[trigger] declared_preset(q).id != id@,
        decreases PRESET_COUNT - p,
    {
        if let Some(found) = preset(p) {
            if same_text(found.id, id) {
                proof {
                    lemma_preset_identifiers_are_unique_at(p as int);
                }
                let settings = apply_preset(&found);
                assert(declared_preset(p as int).id == id@);
                return settings;
            }
        }
        p += 1;
    }
    None
}

/// Applies a preset's values over the defaults.
fn apply_preset(found: &Preset) -> (settings: Option<Settings>)
    ensures
        match settings {
            Some(s) => applied(default_values(), found@.values) == Some(s@),
            None => applied(default_values(), found@.values) is None,
        },
{
    let mut settings = Settings::default();
    let mut k: usize = 0;
    while k < found.values.len()
        invariant
            k <= found.values@.len(),
            applied(default_values(), found.values@.take(k as int)) == Some(settings@),
        decreases found.values@.len() - k,
    {
        let (index, value) = found.values[k];
        assert(found.values@.take(k as int + 1).drop_last() =~= found.values@.take(k as int));
        if !settings.set(index, value as i64) {
            proof {
                lemma_refusal_is_final(default_values(), found.values@, k as int + 1);
            }
            return None;
        }
        k += 1;
    }
    assert(found.values@.take(k as int) =~= found.values@);
    Some(settings)
}

/// Once an assignment is refused, the whole list is.
proof fn lemma_refusal_is_final(start: Seq<i32>, assignments: Seq<(u32, i32)>, k: int)
    requires
        0 <= k <= assignments.len(),
        applied(start, assignments.take(k)) is None,
    ensures
        applied(start, assignments) is None,
    decreases assignments.len() - k,
{
    if k < assignments.len() {
        assert(assignments.take(k + 1).drop_last() =~= assignments.take(k));
        lemma_refusal_is_final(start, assignments, k + 1);
    } else {
        assert(assignments.take(k) =~= assignments);
    }
}

proof fn lemma_preset_identifiers_are_unique_at(p: int)
    requires
        0 <= p < PRESET_COUNT,
    ensures
        forall|q: int| 0 <= q < PRESET_COUNT && q != p ==> #[trigger] declared_preset(q).id != declared_preset(p).id,
{
    assert forall|q: int| 0 <= q < PRESET_COUNT && q != p implies #[trigger] declared_preset(q).id
        != declared_preset(p).id by {
        lemma_preset_identifiers_are_unique(p, q);
    }
}

/// Preset identifiers are unique.
pub proof fn lemma_preset_identifiers_are_unique(p: int, q: int)
    requires
        0 <= p < PRESET_COUNT,
        0 <= q < PRESET_COUNT,
        p != q,
    ensures
        declared_preset(p).id != declared_preset(q).id,
{
    reveal_strlit("default");
    reveal_strlit("piano_glue");
    reveal_strlit("peak_tamer");
    reveal_strlit("parallel_crush");
    reveal_strlit("vocal_smooth");
    reveal_strlit("drum_bus");
    reveal_strlit("level_rider");
    // Each identifier is told apart by its length and its second character.
    let a = declared_preset(p).id;
    let b = declared_preset(q).id;
    assert(a.len() != b.len() || a[1] != b[1]);
}

/// Applying assignments keeps a block inside the contract.
pub proof fn lemma_applied_stays_valid(start: Seq<i32>, assignments: Seq<(u32, i32)>)
    requires
        is_valid_block(start),
    ensures
        applied(start, assignments) matches Some(result) ==> is_valid_block(result),
    decreases assignments.len(),
{
    if assignments.len() > 0 {
        lemma_applied_stays_valid(start, assignments.drop_last());
        if let Some(before) = applied(start, assignments.drop_last()) {
            let (index, value) = assignments.last();
            if is_writable(index as int) && admits(index as int, value as int) {
                let after = before.update(index as int, value);
                assert forall|i: int| 0 <= i < PARAMETER_COUNT implies admits(i, #[trigger] after[i] as int) by {
                    if i != index {
                        assert(after[i] == before[i]);
                    }
                }
            }
        }
    }
}

/// Every preset loads, and what it loads stays inside the contract.
pub proof fn lemma_every_preset_loads(p: int)
    requires
        0 <= p < PRESET_COUNT,
    ensures
        preset_settings(p) is Some,
        is_valid_block(preset_settings(p)->Some_0),
{
    reveal_with_fuel(applied, 10);
    lemma_default_block_is_valid();
    lemma_applied_stays_valid(default_values(), declared_preset(p).values);
}

/// The default preset is the defaults.
pub proof fn lemma_the_default_preset_is_the_defaults()
    ensures
        preset_settings(0) == Some(default_values()),
{
}

/// The `default` preset loads the defaults, every other parameter at its default.
pub proof fn lemma_preset_default()
    ensures
        declared_preset(0).id == "default"@,
        preset_settings(0) == Some(seq![-180i32, 40, 100, 1200, 0, 60, 10, 0, 1000, 0, 0, 1000, 0, 0, 600, 0, 120, 120]),
{
    reveal_with_fuel(applied, 10);
    lemma_the_declared_defaults();
    assert(preset_settings(0).unwrap() =~= seq![-180i32, 40, 100, 1200, 0, 60, 10, 0, 1000, 0, 0, 1000, 0, 0, 600, 0, 120, 120]);
}

/// The `piano_glue` preset loads -24 dB, 2:1, 30 ms attack, 200 ms release, auto release, 12 dB knee, RMS, all wet, 8 dB of range, every other parameter at its default.
pub proof fn lemma_preset_piano_glue()
    ensures
        declared_preset(1).id == "piano_glue"@,
        preset_settings(1) == Some(seq![-240i32, 20, 300, 2000, 10, 120, 10, 0, 1000, 0, 0, 1000, 0, 0, 80, 0, 120, 120]),
{
    reveal_with_fuel(applied, 10);
    lemma_the_declared_defaults();
    assert(preset_settings(1).unwrap() =~= seq![-240i32, 20, 300, 2000, 10, 120, 10, 0, 1000, 0, 0, 1000, 0, 0, 80, 0, 120, 120]);
}

/// The `peak_tamer` preset loads -12 dB, 8:1, 1 ms attack, 80 ms release, 3 dB knee, peak, the 60 Hz filter, 6 dB of range, every other parameter at its default.
pub proof fn lemma_preset_peak_tamer()
    ensures
        declared_preset(2).id == "peak_tamer"@,
        preset_settings(2) == Some(seq![-120i32, 80, 10, 800, 0, 30, 0, 10, 1000, 0, 0, 1000, 0, 0, 60, 0, 120, 120]),
{
    reveal_with_fuel(applied, 10);
    lemma_the_declared_defaults();
    assert(preset_settings(2).unwrap() =~= seq![-120i32, 80, 10, 800, 0, 30, 0, 10, 1000, 0, 0, 1000, 0, 0, 60, 0, 120, 120]);
}

/// The `parallel_crush` preset loads -30 dB, 10:1, 5 ms attack, 150 ms release, 6 dB knee, 40 % wet, auto makeup, 12 dB of range, every other parameter at its default.
pub proof fn lemma_preset_parallel_crush()
    ensures
        declared_preset(3).id == "parallel_crush"@,
        preset_settings(3) == Some(seq![-300i32, 100, 50, 1500, 0, 60, 10, 0, 1000, 0, 10, 400, 0, 0, 120, 0, 120, 120]),
{
    reveal_with_fuel(applied, 10);
    lemma_the_declared_defaults();
    assert(preset_settings(3).unwrap() =~= seq![-300i32, 100, 50, 1500, 0, 60, 10, 0, 1000, 0, 10, 400, 0, 0, 120, 0, 120, 120]);
}

/// The `vocal_smooth` preset loads -20 dB, 3:1, 15 ms attack, 150 ms release, auto release, 9 dB knee, 8 dB of range, every other parameter at its default.
pub proof fn lemma_preset_vocal_smooth()
    ensures
        declared_preset(4).id == "vocal_smooth"@,
        preset_settings(4) == Some(seq![-200i32, 30, 150, 1500, 10, 90, 10, 0, 1000, 0, 0, 1000, 0, 0, 80, 0, 120, 120]),
{
    reveal_with_fuel(applied, 10);
    lemma_the_declared_defaults();
    assert(preset_settings(4).unwrap() =~= seq![-200i32, 30, 150, 1500, 10, 90, 10, 0, 1000, 0, 0, 1000, 0, 0, 80, 0, 120, 120]);
}

/// The `drum_bus` preset loads -18 dB, 4:1, 20 ms attack, 100 ms release, 6 dB knee, peak, the 60 Hz filter, 6 dB of range, every other parameter at its default.
pub proof fn lemma_preset_drum_bus()
    ensures
        declared_preset(5).id == "drum_bus"@,
        preset_settings(5) == Some(seq![-180i32, 40, 200, 1000, 0, 60, 0, 10, 1000, 0, 0, 1000, 0, 0, 60, 0, 120, 120]),
{
    reveal_with_fuel(applied, 10);
    lemma_the_declared_defaults();
    assert(preset_settings(5).unwrap() =~= seq![-180i32, 40, 200, 1000, 0, 60, 0, 10, 1000, 0, 0, 1000, 0, 0, 60, 0, 120, 120]);
}

/// The `level_rider` preset loads -28 dB, 2:1, 40 ms attack, 300 ms release, auto release, 12 dB knee, 8 dB of range, every other parameter at its default.
pub proof fn lemma_preset_level_rider()
    ensures
        declared_preset(6).id == "level_rider"@,
        preset_settings(6) == Some(seq![-280i32, 20, 400, 3000, 10, 120, 10, 0, 1000, 0, 0, 1000, 0, 0, 80, 0, 120, 120]),
{
    reveal_with_fuel(applied, 10);
    lemma_the_declared_defaults();
    assert(preset_settings(6).unwrap() =~= seq![-280i32, 20, 400, 3000, 10, 120, 10, 0, 1000, 0, 0, 1000, 0, 0, 80, 0, 120, 120]);
}

} // verus!
