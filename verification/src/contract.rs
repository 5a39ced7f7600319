//! The public contract of RF-Comp: every parameter the host can see and the
//! pages the editor groups them on.
//!
//! Every level, time, ratio and percentage the contract declares is a whole
//! number of tenths of its unit, so the table states them exactly as counts
//! of tenths: a threshold of -18 dB is `-180`, an attack of 0.1 ms is `1`.
use vstd::prelude::*;

use crate::index::{
    ATTACK, AUTO_MAKEUP, AUTO_RELEASE, BYPASS, DETECTOR, DETECTOR_PEAK, DETECTOR_RMS, INPUT_LEVEL, KNEE,
    LINK, MAKEUP, MIX, OUTPUT_LEVEL, RANGE, RATIO, REDUCTION, RELEASE, SIDECHAIN_HPF, SIDECHAIN_HPF_HZ,
    SIDECHAIN_HPF_OFF, SIDECHAIN_LISTEN, THRESHOLD,
};
use crate::text::{parse_u32, parsed_u32, same_text};
use vstd::utf8::encode_utf8;

verus! {

/// Number of public parameters. Also the length of the state block in words.
pub const PARAMETER_COUNT: usize = 18;

/// The parameter count of each earlier state layout, so a block saved by an
/// older build can still be read. Length is the only thing that identifies a
/// layout, which is why parameters are only ever appended.
pub const PREVIOUS_PARAMETER_COUNTS: [usize; 1] = [14];

/// The top of the ratio knob, in tenths. The engine treats it as infinite,
/// a limiter's slope, and the surface labels it so.
pub const RATIO_MAX: i32 = 200;

/// Whether a block of `count` values has a layout: the current one or an
/// earlier one.
pub open spec fn is_layout_count(count: int) -> bool {
    count == PARAMETER_COUNT || count == PREVIOUS_PARAMETER_COUNTS[0]
}

/// Editor pages. RackForge renders them in `order`; the web surface uses the
/// same identifiers to group its controls.
pub struct PageSpec {
    pub id: &'static str,
    pub name: &'static str,
    pub order: i32,
}

/// The identifiers of the declared pages, in declaration order.
pub open spec fn page_ids() -> Seq<Seq<char>> {
    seq!["compressor"@, "timing"@, "output"@]
}

pub open spec fn page_names() -> Seq<Seq<char>> {
    seq!["Compression"@, "Timing & Detector"@, "Output"@]
}

/// The editor pages, in the order RackForge renders them.
pub fn pages() -> (pages: [PageSpec; 3])
    ensures
        forall|i: int|
            0 <= i < 3 ==> {
                &&& #[trigger] pages@[i].id@ == page_ids()[i]
                &&& pages@[i].name@ == page_names()[i]
                &&& pages@[i].order == i
            },
{
    [
        PageSpec { id: "compressor", name: "Compression", order: 0 },
        PageSpec { id: "timing", name: "Timing & Detector", order: 1 },
        PageSpec { id: "output", name: "Output", order: 2 },
    ]
}

/// How a continuous control travels. Logarithmic needs a minimum above zero.
#[derive(Clone, Copy, PartialEq, Eq, Structural, Debug)]
pub enum Taper {
    Linear,
    Logarithmic,
}

/// Control hint published to RackForge surfaces (LITTLE, controller mappings).
#[derive(Clone, Copy, PartialEq, Eq, Structural, Debug)]
pub enum Control {
    Knob,
    Toggle,
    List,
    Meter,
}

pub open spec fn control_name(control: Control) -> Seq<char> {
    match control {
        Control::Knob => "knob"@,
        Control::Toggle => "toggle"@,
        Control::List => "list"@,
        Control::Meter => "meter"@,
    }
}

impl Control {
    pub fn as_str(self) -> (name: &'static str)
        ensures
            name@ == control_name(self),
    {
        match self {
            Control::Knob => "knob",
            Control::Toggle => "toggle",
            Control::List => "list",
            Control::Meter => "meter",
        }
    }
}

/// The parameter kinds RF-Comp uses: a subset of the RackForge parameter
/// schema. Bounds, defaults and steps are in tenths of the unit. A meter is
/// read-only and reports what the engine is doing.
#[derive(Clone, Copy)]
#[allow(inconsistent_fields)]
pub enum Kind {
    Float {
        minimum: i32,
        maximum: i32,
        default: i32,
        step: i32,
        unit: Option<&'static str>,
        taper: Taper,
    },
    Boolean { default: bool },
    Enum { default: u32, choices: &'static [&'static str] },
    Meter { minimum: i32, maximum: i32, unit: Option<&'static str> },
}

/// A kind as the contract states it: text as characters, choices as a list.
#[allow(inconsistent_fields)]
pub enum KindView {
    Float {
        minimum: i32,
        maximum: i32,
        default: i32,
        step: i32,
        unit: Option<Seq<char>>,
        taper: Taper,
    },
    Boolean { default: bool },
    Enum { default: u32, choices: Seq<Seq<char>> },
    Meter { minimum: i32, maximum: i32, unit: Option<Seq<char>> },
}

pub open spec fn unit_view(unit: Option<&'static str>) -> Option<Seq<char>> {
    match unit {
        Some(text) => Some(text@),
        None => None,
    }
}

impl View for Kind {
    type V = KindView;

    open spec fn view(&self) -> KindView {
        match *self {
            Kind::Float { minimum, maximum, default, step, unit, taper } => KindView::Float {
                minimum,
                maximum,
                default,
                step,
                unit: unit_view(unit),
                taper,
            },
            Kind::Boolean { default } => KindView::Boolean { default },
            Kind::Enum { default, choices } => KindView::Enum {
                default,
                choices: choices@.map_values(|choice: &'static str| choice@),
            },
            Kind::Meter { minimum, maximum, unit } => KindView::Meter {
                minimum,
                maximum,
                unit: unit_view(unit),
            },
        }
    }
}

#[derive(Clone, Copy)]
pub struct ParameterSpec {
    pub index: u32,
    pub id: &'static str,
    pub name: &'static str,
    pub page: &'static str,
    pub order: i32,
    pub kind: Kind,
    pub control: Control,
}

pub struct ParameterView {
    pub index: u32,
    pub id: Seq<char>,
    pub name: Seq<char>,
    pub page: Seq<char>,
    pub order: i32,
    pub kind: KindView,
    pub control: Control,
}

impl View for ParameterSpec {
    type V = ParameterView;

    open spec fn view(&self) -> ParameterView {
        ParameterView {
            index: self.index,
            id: self.id@,
            name: self.name@,
            page: self.page@,
            order: self.order,
            kind: self.kind@,
            control: self.control,
        }
    }
}

impl ParameterView {
    pub open spec fn is_meter(self) -> bool {
        self.kind is Meter
    }

    /// The default, in tenths. A switch defaults to 0 or 10 (off or on), a
    /// choice to ten times its position, and a meter rests at its maximum.
    pub open spec fn default_value(self) -> int {
        match self.kind {
            KindView::Float { default, .. } => default as int,
            KindView::Boolean { default } => if default { 10 } else { 0 },
            KindView::Enum { default, .. } => 10 * default,
            KindView::Meter { maximum, .. } => maximum as int,
        }
    }

    /// The canonical stored value for `value` tenths, or `None` when the value
    /// is outside the declared contract.
    pub open spec fn canonical(self, value: int) -> Option<int> {
        match self.kind {
            KindView::Float { minimum, maximum, .. } | KindView::Meter { minimum, maximum, .. } => {
                if minimum <= value <= maximum {
                    Some(value)
                } else {
                    None
                }
            },
            KindView::Boolean { .. } => {
                if value == 0 || value == 10 {
                    Some(value)
                } else {
                    None
                }
            },
            KindView::Enum { choices, .. } => {
                if value % 10 == 0 && 0 <= value && value / 10 < choices.len() {
                    Some(value)
                } else {
                    None
                }
            },
        }
    }
}

impl ParameterSpec {
    /// The default, in tenths.
    pub fn default_value(&self) -> (value: i64)
        ensures
            value == self@.default_value(),
    {
        match self.kind {
            Kind::Float { default, .. } => default as i64,
            Kind::Boolean { default } => {
                if default {
                    10
                } else {
                    0
                }
            },
            Kind::Enum { default, .. } => 10 * (default as i64),
            Kind::Meter { maximum, .. } => maximum as i64,
        }
    }

    pub fn is_meter(&self) -> (meter: bool)
        ensures
            meter == self@.is_meter(),
    {
        matches!(self.kind, Kind::Meter { .. })
    }

    /// Accepts a host value, in tenths, and returns the canonical stored
    /// value, or `None` when the value is outside the declared contract.
    pub fn canonicalize(&self, value: i64) -> (canonical: Option<i64>)
        ensures
            match canonical {
                Some(c) => self@.canonical(value as int) == Some(c as int),
                None => self@.canonical(value as int) is None,
            },
    {
        match self.kind {
            Kind::Float { minimum, maximum, .. } | Kind::Meter { minimum, maximum, .. } => {
                if minimum as i64 <= value && value <= maximum as i64 {
                    Some(value)
                } else {
                    None
                }
            },
            Kind::Boolean { .. } => {
                if value == 0 {
                    Some(0)
                } else if value == 10 {
                    Some(10)
                } else {
                    None
                }
            },
            Kind::Enum { choices, .. } => {
                if value % 10 != 0 || value < 0 {
                    return None;
                }
                assert(self@.kind->choices.len() == choices@.len());
                if ((value / 10) as u64) < (choices.len() as u64) {
                    Some(value)
                } else {
                    None
                }
            },
        }
    }
}

pub open spec fn decibels_view(
    index: u32,
    id: Seq<char>,
    name: Seq<char>,
    page: Seq<char>,
    order: i32,
    minimum: i32,
    maximum: i32,
    default: i32,
) -> ParameterView {
    ParameterView {
        index,
        id,
        name,
        page,
        order,
        kind: KindView::Float {
            minimum,
            maximum,
            default,
            step: 1,
            unit: Some("dB"@),
            taper: Taper::Linear,
        },
        control: Control::Knob,
    }
}

/// A level in decibels on a linear knob, in tenths of a decibel.
pub fn decibels(
    index: u32,
    id: &'static str,
    name: &'static str,
    page: &'static str,
    order: i32,
    minimum: i32,
    maximum: i32,
    default: i32,
) -> (spec: ParameterSpec)
    ensures
        spec@ == decibels_view(index, id@, name@, page@, order, minimum, maximum, default),
{
    ParameterSpec {
        index,
        id,
        name,
        page,
        order,
        kind: Kind::Float {
            minimum,
            maximum,
            default,
            step: 1,
            unit: Some("dB"),
            taper: Taper::Linear,
        },
        control: Control::Knob,
    }
}

pub open spec fn milliseconds_view(
    index: u32,
    id: Seq<char>,
    name: Seq<char>,
    page: Seq<char>,
    order: i32,
    minimum: i32,
    maximum: i32,
    default: i32,
    step: i32,
) -> ParameterView {
    ParameterView {
        index,
        id,
        name,
        page,
        order,
        kind: KindView::Float {
            minimum,
            maximum,
            default,
            step,
            unit: Some("ms"@),
            taper: Taper::Logarithmic,
        },
        control: Control::Knob,
    }
}

/// A time in milliseconds on a logarithmic knob, so a millisecond and a
/// hundred get the same share of the travel. In tenths of a millisecond.
pub fn milliseconds(
    index: u32,
    id: &'static str,
    name: &'static str,
    page: &'static str,
    order: i32,
    minimum: i32,
    maximum: i32,
    default: i32,
    step: i32,
) -> (spec: ParameterSpec)
    ensures
        spec@ == milliseconds_view(index, id@, name@, page@, order, minimum, maximum, default, step),
{
    ParameterSpec {
        index,
        id,
        name,
        page,
        order,
        kind: Kind::Float {
            minimum,
            maximum,
            default,
            step,
            unit: Some("ms"),
            taper: Taper::Logarithmic,
        },
        control: Control::Knob,
    }
}

pub open spec fn percent_view(
    index: u32,
    id: Seq<char>,
    name: Seq<char>,
    page: Seq<char>,
    order: i32,
    default: i32,
) -> ParameterView {
    ParameterView {
        index,
        id,
        name,
        page,
        order,
        kind: KindView::Float {
            minimum: 0,
            maximum: 1000,
            default,
            step: 10,
            unit: Some("%"@),
            taper: Taper::Linear,
        },
        control: Control::Knob,
    }
}

/// A percentage from 0 to 100 in whole steps, in tenths of a percent.
pub fn percent(
    index: u32,
    id: &'static str,
    name: &'static str,
    page: &'static str,
    order: i32,
    default: i32,
) -> (spec: ParameterSpec)
    ensures
        spec@ == percent_view(index, id@, name@, page@, order, default),
{
    ParameterSpec {
        index,
        id,
        name,
        page,
        order,
        kind: Kind::Float {
            minimum: 0,
            maximum: 1000,
            default,
            step: 10,
            unit: Some("%"),
            taper: Taper::Linear,
        },
        control: Control::Knob,
    }
}

pub open spec fn switch_view(
    index: u32,
    id: Seq<char>,
    name: Seq<char>,
    page: Seq<char>,
    order: i32,
    default: bool,
) -> ParameterView {
    ParameterView {
        index,
        id,
        name,
        page,
        order,
        kind: KindView::Boolean { default },
        control: Control::Toggle,
    }
}

/// An on/off switch.
pub fn switch(
    index: u32,
    id: &'static str,
    name: &'static str,
    page: &'static str,
    order: i32,
    default: bool,
) -> (spec: ParameterSpec)
    ensures
        spec@ == switch_view(index, id@, name@, page@, order, default),
{
    ParameterSpec {
        index,
        id,
        name,
        page,
        order,
        kind: Kind::Boolean { default },
        control: Control::Toggle,
    }
}

pub open spec fn choice_view(
    index: u32,
    id: Seq<char>,
    name: Seq<char>,
    page: Seq<char>,
    order: i32,
    default: u32,
    choices: Seq<Seq<char>>,
) -> ParameterView {
    ParameterView {
        index,
        id,
        name,
        page,
        order,
        kind: KindView::Enum { default, choices },
        control: Control::List,
    }
}

/// A list of named choices, stored by position.
pub fn choice(
    index: u32,
    id: &'static str,
    name: &'static str,
    page: &'static str,
    order: i32,
    default: u32,
    choices: &'static [&'static str],
) -> (spec: ParameterSpec)
    ensures
        spec@ == choice_view(
            index,
            id@,
            name@,
            page@,
            order,
            default,
            choices@.map_values(|choice: &'static str| choice@),
        ),
{
    ParameterSpec {
        index,
        id,
        name,
        page,
        order,
        kind: Kind::Enum { default, choices },
        control: Control::List,
    }
}

pub open spec fn meter_view(
    index: u32,
    id: Seq<char>,
    name: Seq<char>,
    order: i32,
    minimum: i32,
    maximum: i32,
) -> ParameterView {
    ParameterView {
        index,
        id,
        name,
        page: "output"@,
        order,
        kind: KindView::Meter { minimum, maximum, unit: Some("dB"@) },
        control: Control::Meter,
    }
}

/// A read-only level in decibels on the output page, in tenths of a decibel.
pub fn meter(
    index: u32,
    id: &'static str,
    name: &'static str,
    order: i32,
    minimum: i32,
    maximum: i32,
) -> (spec: ParameterSpec)
    ensures
        spec@ == meter_view(index, id@, name@, order, minimum, maximum),
{
    ParameterSpec {
        index,
        id,
        name,
        page: "output",
        order,
        kind: Kind::Meter { minimum, maximum, unit: Some("dB") },
        control: Control::Meter,
    }
}

pub open spec fn detector_choices() -> Seq<Seq<char>> {
    seq!["Peak"@, "RMS"@]
}

pub open spec fn sidechain_hpf_choices() -> Seq<Seq<char>> {
    seq!["Off"@, "60 Hz"@, "120 Hz"@, "250 Hz"@]
}

/// The declared parameter at position `i`, as the contract states it.
pub open spec fn declared(i: int) -> ParameterView {
    if i == 0 {
        decibels_view(0, "comp.threshold"@, "Threshold"@, "compressor"@, 0, -600i32, 0, -180i32)
    } else if i == 1 {
        ParameterView {
            index: 1,
            id: "comp.ratio"@,
            name: "Ratio"@,
            page: "compressor"@,
            order: 1,
            kind: KindView::Float {
                minimum: 10,
                maximum: RATIO_MAX,
                default: 40,
                step: 1,
                unit: Some(":1"@),
                taper: Taper::Logarithmic,
            },
            control: Control::Knob,
        }
    } else if i == 2 {
        milliseconds_view(2, "comp.attack"@, "Attack"@, "timing"@, 3, 1, 1000, 100, 1)
    } else if i == 3 {
        milliseconds_view(3, "comp.release"@, "Release"@, "timing"@, 4, 100, 20000, 1200, 10)
    } else if i == 4 {
        switch_view(4, "comp.auto_release"@, "Auto Release"@, "timing"@, 5, false)
    } else if i == 5 {
        decibels_view(5, "comp.knee"@, "Knee"@, "compressor"@, 2, 0, 240, 60)
    } else if i == 6 {
        choice_view(6, "comp.detector"@, "Detector"@, "timing"@, 6, 1, detector_choices())
    } else if i == 7 {
        choice_view(
            7,
            "comp.sidechain_hpf"@,
            "Sidechain HPF"@,
            "timing"@,
            7,
            0,
            sidechain_hpf_choices(),
        )
    } else if i == 8 {
        percent_view(8, "comp.link"@, "Stereo Link"@, "timing"@, 8, 1000)
    } else if i == 9 {
        decibels_view(9, "output.makeup"@, "Makeup"@, "output"@, 0, -240i32, 240, 0)
    } else if i == 10 {
        switch_view(10, "output.auto_makeup"@, "Auto Makeup"@, "output"@, 1, false)
    } else if i == 11 {
        percent_view(11, "output.mix"@, "Mix"@, "output"@, 2, 1000)
    } else if i == 12 {
        switch_view(12, "output.bypass"@, "Bypass"@, "output"@, 3, false)
    } else if i == 13 {
        meter_view(13, "output.reduction"@, "Gain Reduction"@, 4, -400i32, 0)
    } else if i == 14 {
        decibels_view(14, "comp.range"@, "Range"@, "compressor"@, 3, 0, 600, 600)
    } else if i == 15 {
        switch_view(15, "comp.sidechain_listen"@, "Sidechain Listen"@, "timing"@, 9, false)
    } else if i == 16 {
        meter_view(16, "meter.input"@, "Input"@, 5, -600i32, 120)
    } else {
        meter_view(17, "meter.output"@, "Output"@, 6, -600i32, 120)
    }
}

/// The parameter at `index`, or `None` past the end of the table.
pub fn parameter(index: u32) -> (spec: Option<ParameterSpec>)
    ensures
        spec is Some <==> index < PARAMETER_COUNT,
        spec matches Some(p) ==> p@ == declared(index as int),
{
    let spec = if index == 0 {
        decibels(0, "comp.threshold", "Threshold", "compressor", 0, -600, 0, -180)
    } else if index == 1 {
        ParameterSpec {
            index: 1,
            id: "comp.ratio",
            name: "Ratio",
            page: "compressor",
            order: 1,
            kind: Kind::Float {
                minimum: 10,
                maximum: RATIO_MAX,
                default: 40,
                step: 1,
                unit: Some(":1"),
                taper: Taper::Logarithmic,
            },
            control: Control::Knob,
        }
    } else if index == 2 {
        milliseconds(2, "comp.attack", "Attack", "timing", 3, 1, 1000, 100, 1)
    } else if index == 3 {
        milliseconds(3, "comp.release", "Release", "timing", 4, 100, 20000, 1200, 10)
    } else if index == 4 {
        switch(4, "comp.auto_release", "Auto Release", "timing", 5, false)
    } else if index == 5 {
        decibels(5, "comp.knee", "Knee", "compressor", 2, 0, 240, 60)
    } else if index == 6 {
        let choices: &'static [&'static str] = &["Peak", "RMS"];
        assert(choices@.map_values(|choice: &'static str| choice@) =~= detector_choices());
        choice(6, "comp.detector", "Detector", "timing", 6, 1, choices)
    } else if index == 7 {
        let choices: &'static [&'static str] = &["Off", "60 Hz", "120 Hz", "250 Hz"];
        assert(choices@.map_values(|choice: &'static str| choice@) =~= sidechain_hpf_choices());
        choice(7, "comp.sidechain_hpf", "Sidechain HPF", "timing", 7, 0, choices)
    } else if index == 8 {
        percent(8, "comp.link", "Stereo Link", "timing", 8, 1000)
    } else if index == 9 {
        decibels(9, "output.makeup", "Makeup", "output", 0, -240, 240, 0)
    } else if index == 10 {
        switch(10, "output.auto_makeup", "Auto Makeup", "output", 1, false)
    } else if index == 11 {
        percent(11, "output.mix", "Mix", "output", 2, 1000)
    } else if index == 12 {
        switch(12, "output.bypass", "Bypass", "output", 3, false)
    } else if index == 13 {
        meter(13, "output.reduction", "Gain Reduction", 4, -400, 0)
    } else if index == 14 {
        decibels(14, "comp.range", "Range", "compressor", 3, 0, 600, 600)
    } else if index == 15 {
        switch(15, "comp.sidechain_listen", "Sidechain Listen", "timing", 9, false)
    } else if index == 16 {
        meter(16, "meter.input", "Input", 5, -600, 120)
    } else if index == 17 {
        meter(17, "meter.output", "Output", 6, -600, 120)
    } else {
        return None;
    };
    Some(spec)
}

/// The whole table, in index order.
pub fn parameters() -> (table: Vec<ParameterSpec>)
    ensures
        table@.len() == PARAMETER_COUNT,
        forall|i: int| 0 <= i < PARAMETER_COUNT ==> #[trigger] table@[i]@ == declared(i),
{
    let mut table: Vec<ParameterSpec> = Vec::new();
    let mut index: u32 = 0;
    while index < PARAMETER_COUNT as u32
        invariant
            index <= PARAMETER_COUNT,
            table@.len() == index,
            forall|i: int| 0 <= i < index ==> #[trigger] table@[i]@ == declared(i),
        decreases PARAMETER_COUNT - index,
    {
        let spec = parameter(index);
        match spec {
            Some(spec) => table.push(spec),
            None => {},
        }
        index += 1;
    }
    table
}

/// The index of the parameter called `id`, or `None` when no parameter is.
pub fn index_of(id: &str) -> (index: Option<u32>)
    ensures
        match index {
            Some(i) => i < PARAMETER_COUNT && declared(i as int).id == id@,
            None => forall|i: int| 0 <= i < PARAMETER_COUNT ==> #[trigger] declared(i).id != id@,
        },
{
    let mut index: u32 = 0;
    while index < PARAMETER_COUNT as u32
        invariant
            index <= PARAMETER_COUNT,
            forall|i: int| 0 <= i < index ==> #[trigger] declared(i).id != id@,
        decreases PARAMETER_COUNT - index,
    {
        match parameter(index) {
            Some(spec) => {
                if same_text(spec.id, id) {
                    return Some(index);
                }
            },
            None => {},
        }
        index += 1;
    }
    None
}

/// The parameter a name refers to: an index written in decimal, taken as it
/// stands, or else the identifier of a parameter.
pub fn parameter_index(key: &str) -> (index: Option<u32>)
    ensures
        match parsed_u32(encode_utf8(key@)) {
            Some(number) => index == Some(number),
            None => match index {
                Some(i) => i < PARAMETER_COUNT && declared(i as int).id == key@,
                None => forall|i: int| 0 <= i < PARAMETER_COUNT ==> #[trigger] declared(i).id != key@,
            },
        },
{
    match parse_u32(key) {
        Some(number) => Some(number),
        None => index_of(key),
    }
}

/// Characters a RackForge identifier may hold: lower-case ASCII letters,
/// digits, and `.`, `-`, `_`.
pub open spec fn is_host_legal(c: char) -> bool {
    ('a' <= c && c <= 'z') || ('0' <= c && c <= '9') || c == '.' || c == '-' || c == '_'
}

pub open spec fn is_host_legal_identifier(id: Seq<char>) -> bool {
    forall|k: int| 0 <= k < id.len() ==> is_host_legal(#[trigger] id[k])
}

/// Every parameter declares its own index, and every parameter's page is one
/// of the declared pages.
pub proof fn lemma_parameters_know_their_place(i: int)
    requires
        0 <= i < PARAMETER_COUNT,
    ensures
        declared(i).index == i,
        page_ids().contains(declared(i).page),
{
    assert(page_ids()[0] == "compressor"@);
    assert(page_ids()[1] == "timing"@);
    assert(page_ids()[2] == "output"@);
}

proof fn lemma_identifier_is_host_legal(i: int)
    requires
        0 <= i < PARAMETER_COUNT,
    ensures
        is_host_legal_identifier(declared(i).id),
{
    reveal_strlit("comp.threshold");
    reveal_strlit("comp.ratio");
    reveal_strlit("comp.attack");
    reveal_strlit("comp.release");
    reveal_strlit("comp.auto_release");
    reveal_strlit("comp.knee");
    reveal_strlit("comp.detector");
    reveal_strlit("comp.sidechain_hpf");
    reveal_strlit("comp.link");
    reveal_strlit("output.makeup");
    reveal_strlit("output.auto_makeup");
    reveal_strlit("output.mix");
    reveal_strlit("output.bypass");
    reveal_strlit("output.reduction");
    reveal_strlit("comp.range");
    reveal_strlit("comp.sidechain_listen");
    reveal_strlit("meter.input");
    reveal_strlit("meter.output");
    let id = declared(i).id;
    assert forall|k: int| 0 <= k < id.len() implies is_host_legal(#[trigger] id[k]) by {
        // One case per identifier.
        if i == 0 {} else if i == 1 {} else if i == 2 {} else if i == 3 {}
        else if i == 4 {} else if i == 5 {} else if i == 6 {} else if i == 7 {}
        else if i == 8 {} else if i == 9 {} else if i == 10 {} else if i == 11 {}
        else if i == 12 {} else if i == 13 {} else if i == 14 {} else if i == 15 {}
        else if i == 16 {} else {}
    }
}

proof fn lemma_identifiers_differ(i: int, j: int)
    requires
        0 <= i < j < PARAMETER_COUNT,
    ensures
        declared(i).id != declared(j).id,
{
    reveal_strlit("comp.threshold");
    reveal_strlit("comp.ratio");
    reveal_strlit("comp.attack");
    reveal_strlit("comp.release");
    reveal_strlit("comp.auto_release");
    reveal_strlit("comp.knee");
    reveal_strlit("comp.detector");
    reveal_strlit("comp.sidechain_hpf");
    reveal_strlit("comp.link");
    reveal_strlit("output.makeup");
    reveal_strlit("output.auto_makeup");
    reveal_strlit("output.mix");
    reveal_strlit("output.bypass");
    reveal_strlit("output.reduction");
    reveal_strlit("comp.range");
    reveal_strlit("comp.sidechain_listen");
    reveal_strlit("meter.input");
    reveal_strlit("meter.output");
    // Each identifier is told apart by its length and its eighth character.
    let a = declared(i).id;
    let b = declared(j).id;
    assert(a.len() != b.len() || a[7] != b[7]);
}

/// Parameter identifiers are unique, and every one is a legal RackForge
/// identifier.
pub proof fn lemma_parameter_identifiers_are_unique_and_host_legal(i: int, j: int)
    requires
        0 <= i < PARAMETER_COUNT,
        0 <= j < PARAMETER_COUNT,
    ensures
        is_host_legal_identifier(declared(i).id),
        i != j ==> declared(i).id != declared(j).id,
{
    lemma_identifier_is_host_legal(i);
    if i < j {
        lemma_identifiers_differ(i, j);
    } else if j < i {
        lemma_identifiers_differ(j, i);
    }
}

/// A logarithmic taper never starts at zero: its minimum is above it.
pub proof fn lemma_logarithmic_tapers_start_above_zero(i: int)
    requires
        0 <= i < PARAMETER_COUNT,
    ensures
        declared(i).kind matches KindView::Float { taper: Taper::Logarithmic, minimum, .. }
            ==> minimum > 0,
{
}

/// Every parameter's default lies inside its own contract: validating it
/// gives it back unchanged. A choice's default names one of its choices.
pub proof fn lemma_defaults_are_canonical(i: int)
    requires
        0 <= i < PARAMETER_COUNT,
    ensures
        declared(i).canonical(declared(i).default_value()) == Some(declared(i).default_value()),
        declared(i).kind matches KindView::Enum { default, choices } ==> default < choices.len(),
{
}

/// Each named index points at the identifier it claims.
pub proof fn lemma_named_indexes_point_at_their_identifiers()
    ensures
        declared(THRESHOLD as int).id == "comp.threshold"@,
        declared(RATIO as int).id == "comp.ratio"@,
        declared(ATTACK as int).id == "comp.attack"@,
        declared(RELEASE as int).id == "comp.release"@,
        declared(AUTO_RELEASE as int).id == "comp.auto_release"@,
        declared(KNEE as int).id == "comp.knee"@,
        declared(DETECTOR as int).id == "comp.detector"@,
        declared(SIDECHAIN_HPF as int).id == "comp.sidechain_hpf"@,
        declared(LINK as int).id == "comp.link"@,
        declared(MAKEUP as int).id == "output.makeup"@,
        declared(AUTO_MAKEUP as int).id == "output.auto_makeup"@,
        declared(MIX as int).id == "output.mix"@,
        declared(BYPASS as int).id == "output.bypass"@,
        declared(REDUCTION as int).id == "output.reduction"@,
        declared(RANGE as int).id == "comp.range"@,
        declared(SIDECHAIN_LISTEN as int).id == "comp.sidechain_listen"@,
        declared(INPUT_LEVEL as int).id == "meter.input"@,
        declared(OUTPUT_LEVEL as int).id == "meter.output"@,
{
}

/// The named choice values match the labels of their choices, and the
/// sidechain filter has one corner for each of its choices, off at zero.
pub proof fn lemma_choices_match_their_named_values()
    ensures
        declared(DETECTOR as int).kind is Enum,
        declared(DETECTOR as int).kind->Enum_choices[DETECTOR_PEAK as int] == "Peak"@,
        declared(DETECTOR as int).kind->Enum_choices[DETECTOR_RMS as int] == "RMS"@,
        declared(SIDECHAIN_HPF as int).kind is Enum,
        declared(SIDECHAIN_HPF as int).kind->Enum_choices.len() == SIDECHAIN_HPF_HZ@.len(),
        declared(SIDECHAIN_HPF as int).kind->Enum_choices[SIDECHAIN_HPF_OFF as int] == "Off"@,
        SIDECHAIN_HPF_HZ@[SIDECHAIN_HPF_OFF as int] == 0,
{
}

/// Exactly the read-only readings are meters: the gain reduction and the
/// input and output levels.
pub proof fn lemma_meters_are_the_readings(i: int)
    requires
        0 <= i < PARAMETER_COUNT,
    ensures
        declared(i).is_meter() <==> (i == REDUCTION || i == INPUT_LEVEL || i == OUTPUT_LEVEL),
{
}

/// How each parameter is presented: its name, its page and place on it,
/// its control, and its kind with range, default, step, unit and taper, in
/// tenths of the unit.
pub proof fn lemma_each_parameter_is_presented_as_declared()
    ensures
        declared(THRESHOLD as int).name == "Threshold"@,
        declared(THRESHOLD as int).page == "compressor"@,
        declared(THRESHOLD as int).order == 0,
        declared(THRESHOLD as int).control == Control::Knob,
        declared(THRESHOLD as int).kind == (KindView::Float { minimum: -600i32, maximum: 0i32, default: -180i32, step: 1i32, unit: Some("dB"@), taper: Taper::Linear }),
        declared(RATIO as int).name == "Ratio"@,
        declared(RATIO as int).page == "compressor"@,
        declared(RATIO as int).order == 1,
        declared(RATIO as int).control == Control::Knob,
        declared(RATIO as int).kind == (KindView::Float { minimum: 10i32, maximum: 200i32, default: 40i32, step: 1i32, unit: Some(":1"@), taper: Taper::Logarithmic }),
        declared(ATTACK as int).name == "Attack"@,
        declared(ATTACK as int).page == "timing"@,
        declared(ATTACK as int).order == 3,
        declared(ATTACK as int).control == Control::Knob,
        declared(ATTACK as int).kind == (KindView::Float { minimum: 1i32, maximum: 1000i32, default: 100i32, step: 1i32, unit: Some("ms"@), taper: Taper::Logarithmic }),
        declared(RELEASE as int).name == "Release"@,
        declared(RELEASE as int).page == "timing"@,
        declared(RELEASE as int).order == 4,
        declared(RELEASE as int).control == Control::Knob,
        declared(RELEASE as int).kind == (KindView::Float { minimum: 100i32, maximum: 20000i32, default: 1200i32, step: 10i32, unit: Some("ms"@), taper: Taper::Logarithmic }),
        declared(AUTO_RELEASE as int).name == "Auto Release"@,
        declared(AUTO_RELEASE as int).page == "timing"@,
        declared(AUTO_RELEASE as int).order == 5,
        declared(AUTO_RELEASE as int).control == Control::Toggle,
        declared(AUTO_RELEASE as int).kind == (KindView::Boolean { default: false }),
        declared(KNEE as int).name == "Knee"@,
        declared(KNEE as int).page == "compressor"@,
        declared(KNEE as int).order == 2,
        declared(KNEE as int).control == Control::Knob,
        declared(KNEE as int).kind == (KindView::Float { minimum: 0i32, maximum: 240i32, default: 60i32, step: 1i32, unit: Some("dB"@), taper: Taper::Linear }),
        declared(DETECTOR as int).name == "Detector"@,
        declared(DETECTOR as int).page == "timing"@,
        declared(DETECTOR as int).order == 6,
        declared(DETECTOR as int).control == Control::List,
        declared(DETECTOR as int).kind == (KindView::Enum { default: 1u32, choices: seq!["Peak"@, "RMS"@] }),
        declared(SIDECHAIN_HPF as int).name == "Sidechain HPF"@,
        declared(SIDECHAIN_HPF as int).page == "timing"@,
        declared(SIDECHAIN_HPF as int).order == 7,
        declared(SIDECHAIN_HPF as int).control == Control::List,
        declared(SIDECHAIN_HPF as int).kind == (KindView::Enum { default: 0u32, choices: seq!["Off"@, "60 Hz"@, "120 Hz"@, "250 Hz"@] }),
        declared(LINK as int).name == "Stereo Link"@,
        declared(LINK as int).page == "timing"@,
        declared(LINK as int).order == 8,
        declared(LINK as int).control == Control::Knob,
        declared(LINK as int).kind == (KindView::Float { minimum: 0i32, maximum: 1000i32, default: 1000i32, step: 10i32, unit: Some("%"@), taper: Taper::Linear }),
        declared(MAKEUP as int).name == "Makeup"@,
        declared(MAKEUP as int).page == "output"@,
        declared(MAKEUP as int).order == 0,
        declared(MAKEUP as int).control == Control::Knob,
        declared(MAKEUP as int).kind == (KindView::Float { minimum: -240i32, maximum: 240i32, default: 0i32, step: 1i32, unit: Some("dB"@), taper: Taper::Linear }),
        declared(AUTO_MAKEUP as int).name == "Auto Makeup"@,
        declared(AUTO_MAKEUP as int).page == "output"@,
        declared(AUTO_MAKEUP as int).order == 1,
        declared(AUTO_MAKEUP as int).control == Control::Toggle,
        declared(AUTO_MAKEUP as int).kind == (KindView::Boolean { default: false }),
        declared(MIX as int).name == "Mix"@,
        declared(MIX as int).page == "output"@,
        declared(MIX as int).order == 2,
        declared(MIX as int).control == Control::Knob,
        declared(MIX as int).kind == (KindView::Float { minimum: 0i32, maximum: 1000i32, default: 1000i32, step: 10i32, unit: Some("%"@), taper: Taper::Linear }),
        declared(BYPASS as int).name == "Bypass"@,
        declared(BYPASS as int).page == "output"@,
        declared(BYPASS as int).order == 3,
        declared(BYPASS as int).control == Control::Toggle,
        declared(BYPASS as int).kind == (KindView::Boolean { default: false }),
        declared(REDUCTION as int).name == "Gain Reduction"@,
        declared(REDUCTION as int).page == "output"@,
        declared(REDUCTION as int).order == 4,
        declared(REDUCTION as int).control == Control::Meter,
        declared(REDUCTION as int).kind == (KindView::Meter { minimum: -400i32, maximum: 0i32, unit: Some("dB"@) }),
        declared(RANGE as int).name == "Range"@,
        declared(RANGE as int).page == "compressor"@,
        declared(RANGE as int).order == 3,
        declared(RANGE as int).control == Control::Knob,
        declared(RANGE as int).kind == (KindView::Float { minimum: 0i32, maximum: 600i32, default: 600i32, step: 1i32, unit: Some("dB"@), taper: Taper::Linear }),
        declared(SIDECHAIN_LISTEN as int).name == "Sidechain Listen"@,
        declared(SIDECHAIN_LISTEN as int).page == "timing"@,
        declared(SIDECHAIN_LISTEN as int).order == 9,
        declared(SIDECHAIN_LISTEN as int).control == Control::Toggle,
        declared(SIDECHAIN_LISTEN as int).kind == (KindView::Boolean { default: false }),
        declared(INPUT_LEVEL as int).name == "Input"@,
        declared(INPUT_LEVEL as int).page == "output"@,
        declared(INPUT_LEVEL as int).order == 5,
        declared(INPUT_LEVEL as int).control == Control::Meter,
        declared(INPUT_LEVEL as int).kind == (KindView::Meter { minimum: -600i32, maximum: 120i32, unit: Some("dB"@) }),
        declared(OUTPUT_LEVEL as int).name == "Output"@,
        declared(OUTPUT_LEVEL as int).page == "output"@,
        declared(OUTPUT_LEVEL as int).order == 6,
        declared(OUTPUT_LEVEL as int).control == Control::Meter,
        declared(OUTPUT_LEVEL as int).kind == (KindView::Meter { minimum: -600i32, maximum: 120i32, unit: Some("dB"@) }),
{
    assert(declared(DETECTOR as int).kind->Enum_choices =~= seq!["Peak"@, "RMS"@]);
    assert(declared(SIDECHAIN_HPF as int).kind->Enum_choices =~= seq![
        "Off"@,
        "60 Hz"@,
        "120 Hz"@,
        "250 Hz"@,
    ]);
}

/// The editor's pages, in render order: Compression, then Timing &
/// Detector, then Output.
pub proof fn lemma_the_pages()
    ensures
        page_ids() == seq!["compressor"@, "timing"@, "output"@],
        page_names() == seq!["Compression"@, "Timing & Detector"@, "Output"@],
{
}

/// The control hints carry the schema's words.
pub proof fn lemma_control_names()
    ensures
        control_name(Control::Knob) == "knob"@,
        control_name(Control::Toggle) == "toggle"@,
        control_name(Control::List) == "list"@,
        control_name(Control::Meter) == "meter"@,
{
}

} // verus!
