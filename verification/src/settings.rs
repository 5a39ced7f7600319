//! The flat settings block: one value per parameter, in index order, in
//! tenths of the parameter's unit. Its layout is the contract's.
use vstd::prelude::*;

use crate::index::{
    ATTACK, AUTO_MAKEUP, AUTO_RELEASE, BYPASS, DETECTOR, INPUT_LEVEL, KNEE, LINK, MAKEUP, MIX,
    OUTPUT_LEVEL, RANGE, RATIO, REDUCTION, RELEASE, SIDECHAIN_HPF, SIDECHAIN_LISTEN, THRESHOLD,
};

use crate::contract::{
    KindView,
    declared, is_layout_count, parameter, lemma_defaults_are_canonical, PARAMETER_COUNT,
    PREVIOUS_PARAMETER_COUNTS,
};

verus! {

/// The default of every parameter, in index order.
pub open spec fn default_values() -> Seq<i32> {
    Seq::new(PARAMETER_COUNT as nat, |i: int| declared(i).default_value() as i32)
}

/// Whether the contract accepts `value` for the parameter at `index`.
pub open spec fn admits(index: int, value: int) -> bool {
    declared(index).canonical(value) is Some
}

/// A full block in which every value lies inside its parameter's contract,
/// and every meter, which no setting writes, holds its default.
pub open spec fn is_valid_block(values: Seq<i32>) -> bool {
    &&& values.len() == PARAMETER_COUNT
    &&& forall|i: int| 0 <= i < PARAMETER_COUNT ==> admits(i, #[trigger] values[i] as int)
    &&& forall|i: int|
        0 <= i < PARAMETER_COUNT && !is_writable(i) ==> #[trigger] values[i] == default_values()[i]
}

/// Whether the host may write the parameter at `index`: it exists and it is
/// not a meter, which is the engine's to write.
pub open spec fn is_writable(index: int) -> bool {
    0 <= index < PARAMETER_COUNT && !declared(index).is_meter()
}

/// Whether a block written by this build or an earlier one can be restored:
/// its length names a layout, and every value it carries for a writable
/// parameter lies inside the contract.
pub open spec fn is_restorable(values: Seq<i32>) -> bool {
    &&& is_layout_count(values.len() as int)
    &&& forall|i: int|
        0 <= i < values.len() && is_writable(i) ==> admits(i, #[trigger] values[i] as int)
}

/// What a restorable block restores: its values for the writable parameters
/// it carries, and the defaults everywhere else (parameters added since it
/// was written, and the meters, whose stored readings are not settings).
pub open spec fn restored(values: Seq<i32>) -> Seq<i32> {
    Seq::new(
        PARAMETER_COUNT as nat,
        |i: int|
            if i < values.len() && is_writable(i) {
                values[i]
            } else {
                default_values()[i]
            },
    )
}

pub struct Settings {
    values: [i32; PARAMETER_COUNT],
}

impl View for Settings {
    type V = Seq<i32>;

    closed spec fn view(&self) -> Seq<i32> {
        self.values@
    }
}

impl Settings {
    #[verifier::type_invariant]
    spec fn inside_the_contract(self) -> bool {
        is_valid_block(self.values@)
    }

    /// Sets a control, in tenths of its unit. A meter is the engine's to
    /// write, never the host's, and a value outside the contract is refused.
    pub fn set(&mut self, index: u32, value: i64) -> (accepted: bool)
        ensures
            accepted == (is_writable(index as int) && admits(index as int, value as int)),
            final(self)@ == if accepted {
                old(self)@.update(index as int, value as i32)
            } else {
                old(self)@
            },
    {
        proof {
            use_type_invariant(&*self);
        }
        let spec = match parameter(index) {
            Some(spec) => spec,
            None => return false,
        };
        if spec.is_meter() {
            return false;
        }
        match spec.canonicalize(value) {
            Some(canonical) => {
                assert(declared(index as int).canonical(value as int) == Some(value as int));
                assert(canonical == value);
                self.values[index as usize] = canonical as i32;
                assert(self.values@ =~= old(self)@.update(index as int, value as i32));
                true
            },
            None => false,
        }
    }

    pub fn get(&self, index: u32) -> (value: Option<i32>)
        ensures
            value == if index < PARAMETER_COUNT {
                Some(self@[index as int])
            } else {
                None
            },
    {
        if (index as usize) < PARAMETER_COUNT {
            Some(self.values[index as usize])
        } else {
            None
        }
    }

    pub fn value(&self, index: u32) -> (value: i32)
        requires
            index < PARAMETER_COUNT,
        ensures
            value == self@[index as int],
    {
        self.values[index as usize]
    }

    /// Whether a switch is on: at or above half of one.
    pub fn engaged(&self, index: u32) -> (on: bool)
        requires
            index < PARAMETER_COUNT,
        ensures
            on == (self@[index as int] >= 5),
    {
        self.values[index as usize] >= 5
    }

    /// The block, which always lies inside the contract.
    pub fn as_array(&self) -> (values: [i32; PARAMETER_COUNT])
        ensures
            values@ == self@,
            is_valid_block(values@),
    {
        proof {
            use_type_invariant(self);
        }
        self.values
    }

    pub fn from_array(values: [i32; PARAMETER_COUNT]) -> (settings: Option<Self>)
        ensures
            settings is Some <==> is_restorable(values@),
            settings matches Some(s) ==> s@ == restored(values@),
    {
        Self::from_slice(values.as_slice())
    }

    /// Reads a state block that may have been written by an earlier build.
    ///
    /// Layouts are identified by length, and parameters are only ever
    /// appended, so a shorter block is an older one: its values are applied
    /// and anything added since keeps its default. A length that belongs to no
    /// layout, or a value outside the contract, is refused outright rather
    /// than partially applied. A meter's stored value is ignored: it is the
    /// engine's reading, not a setting.
    pub fn from_slice(values: &[i32]) -> (settings: Option<Self>)
        ensures
            settings is Some <==> is_restorable(values@),
            settings matches Some(s) ==> s@ == restored(values@),
    {
        if values.len() != PARAMETER_COUNT && values.len() != PREVIOUS_PARAMETER_COUNTS[0] {
            return None;
        }
        let mut settings = Self::default();
        let mut index: usize = 0;
        while index < values.len()
            invariant
                is_layout_count(values@.len() as int),
                index <= values@.len(),
                forall|i: int|
                    0 <= i < index && is_writable(i) ==> admits(i, #[trigger] values@[i] as int),
                forall|i: int|
                    0 <= i < PARAMETER_COUNT ==> #[trigger] settings@[i] == if i < index
                        && is_writable(i) {
                        values@[i]
                    } else {
                        default_values()[i]
                    },
                settings@.len() == PARAMETER_COUNT,
            decreases values@.len() - index,
        {
            let spec = parameter(index as u32);
            let meter = match spec {
                Some(spec) => spec.is_meter(),
                None => true,
            };
            if !meter {
                if !settings.set(index as u32, values[index] as i64) {
                    return None;
                }
            }
            index += 1;
        }
        assert(settings@ =~= restored(values@));
        Some(settings)
    }
}

impl Default for Settings {
    fn default() -> (settings: Self)
        ensures
            settings@ == default_values(),
    {
        let mut values = [0i32; PARAMETER_COUNT];
        let mut index: u32 = 0;
        while index < PARAMETER_COUNT as u32
            invariant
                index <= PARAMETER_COUNT,
                values@.len() == PARAMETER_COUNT,
                forall|i: int| 0 <= i < index ==> #[trigger] values@[i] == default_values()[i],
            decreases PARAMETER_COUNT - index,
        {
            if let Some(spec) = parameter(index) {
                proof {
                    lemma_defaults_are_canonical(index as int);
                }
                values[index as usize] = spec.default_value() as i32;
            }
            index += 1;
        }
        assert forall|i: int| 0 <= i < PARAMETER_COUNT implies admits(i, #[trigger] values@[i] as int) by {
            lemma_defaults_are_canonical(i);
        }
        Settings { values }
    }
}

/// The defaults lie inside the contract.
pub proof fn lemma_default_block_is_valid()
    ensures
        is_valid_block(default_values()),
{
    assert forall|i: int| 0 <= i < PARAMETER_COUNT implies admits(i, #[trigger] default_values()[i] as int) by {
        lemma_defaults_are_canonical(i);
    }
}

/// A block inside the contract restores to itself: settings survive being
/// written out and read back, the defaults among them.
pub proof fn lemma_valid_blocks_round_trip(values: Seq<i32>)
    requires
        is_valid_block(values),
    ensures
        is_restorable(values),
        restored(values) == values,
{
    assert(restored(values) =~= values);
}

/// A block written before the newest parameters were appended restores
/// them to their defaults.
pub proof fn lemma_an_older_block_keeps_the_newer_defaults(values: Seq<i32>, i: int)
    requires
        is_restorable(values),
        values.len() <= i < PARAMETER_COUNT,
    ensures
        restored(values)[i] == default_values()[i],
{
}

/// A meter is never a setting: the host cannot write it, and no block
/// restores a reading into it.
pub proof fn lemma_the_meter_is_not_a_setting(values: Seq<i32>, i: int)
    requires
        0 <= i < PARAMETER_COUNT,
        declared(i).is_meter(),
    ensures
        !is_writable(i),
        restored(values)[i] == default_values()[i],
{
}

/// A continuous control or a meter admits exactly the values between its
/// declared minimum and maximum, whatever its step: a host may set any value
/// inside a range.
pub proof fn lemma_a_range_admits_everything_inside_it(i: int, value: int)
    requires
        0 <= i < PARAMETER_COUNT,
    ensures
        declared(i).kind matches KindView::Float { minimum, maximum, .. } ==> (admits(i, value)
            <==> minimum <= value <= maximum),
        declared(i).kind matches KindView::Meter { minimum, maximum, .. } ==> (admits(i, value)
            <==> minimum <= value <= maximum),
        declared(i).kind is Boolean ==> (admits(i, value) <==> value == 0 || value == 10),
{
}

/// What the contract admits, parameter by parameter, in tenths: the
/// threshold from -60 to 0 dB, the ratio from 1:1 to 20:1, the attack from
/// 0.1 to 100 ms, the release from 10 to 2000 ms, the knee up to 24 dB, the
/// link and the mix from 0 to 100 %, the makeup within 24 dB either way, the
/// range up to 60 dB, the meters over their scales, a switch off or on, and
/// a choice one of its positions.
pub proof fn lemma_the_contract_admits(value: int)
    ensures
        admits(THRESHOLD as int, value) <==> -600 <= value <= 0,
        admits(RATIO as int, value) <==> 10 <= value <= 200,
        admits(ATTACK as int, value) <==> 1 <= value <= 1000,
        admits(RELEASE as int, value) <==> 100 <= value <= 20000,
        admits(AUTO_RELEASE as int, value) <==> value == 0 || value == 10,
        admits(KNEE as int, value) <==> 0 <= value <= 240,
        admits(DETECTOR as int, value) <==> value == 0 || value == 10,
        admits(SIDECHAIN_HPF as int, value) <==> value == 0 || value == 10 || value == 20 || value == 30,
        admits(LINK as int, value) <==> 0 <= value <= 1000,
        admits(MAKEUP as int, value) <==> -240 <= value <= 240,
        admits(AUTO_MAKEUP as int, value) <==> value == 0 || value == 10,
        admits(MIX as int, value) <==> 0 <= value <= 1000,
        admits(BYPASS as int, value) <==> value == 0 || value == 10,
        admits(REDUCTION as int, value) <==> -400 <= value <= 0,
        admits(RANGE as int, value) <==> 0 <= value <= 600,
        admits(SIDECHAIN_LISTEN as int, value) <==> value == 0 || value == 10,
        admits(INPUT_LEVEL as int, value) <==> -600 <= value <= 120,
        admits(OUTPUT_LEVEL as int, value) <==> -600 <= value <= 120,
{
    assert(declared(DETECTOR as int).kind->Enum_choices.len() == 2);
    assert(declared(SIDECHAIN_HPF as int).kind->Enum_choices.len() == 4);
}

/// Exactly the readings are closed to the host: every other parameter is
/// writable.
pub proof fn lemma_writable_parameters(i: int)
    requires
        0 <= i < PARAMETER_COUNT,
    ensures
        is_writable(i) <==> !(i == REDUCTION || i == INPUT_LEVEL || i == OUTPUT_LEVEL),
{
}

/// The defaults, in tenths: -18 dB threshold, 4:1, 10 ms attack, 120 ms
/// release, auto release off, 6 dB knee, the RMS detector, no sidechain
/// filter, fully linked, no makeup, auto makeup off, all wet, not bypassed,
/// no reduction, 60 dB of range, sidechain listen off, and the level meters
/// at the top of their scales.
pub proof fn lemma_the_declared_defaults()
    ensures
        default_values() == seq![
            -180i32, 40, 100, 1200, 0, 60, 10, 0, 1000, 0, 0, 1000, 0, 0, 600, 0, 120, 120,
        ],
{
    assert(default_values() =~= seq![
        -180i32, 40, 100, 1200, 0, 60, 10, 0, 1000, 0, 0, 1000, 0, 0, 600, 0, 120, 120,
    ]);
}

} // verus!
