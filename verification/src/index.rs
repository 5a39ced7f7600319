//! Named parameter indexes.
//!
//! The engine and the packager both address parameters by number. Naming them
//! here, and proving that each name still points at the identifier it claims,
//! keeps a renumbering from quietly rewiring a knob.
use vstd::prelude::*;

verus! {

pub const THRESHOLD: u32 = 0;
pub const RATIO: u32 = 1;
pub const ATTACK: u32 = 2;
pub const RELEASE: u32 = 3;
pub const AUTO_RELEASE: u32 = 4;
pub const KNEE: u32 = 5;
pub const DETECTOR: u32 = 6;
pub const SIDECHAIN_HPF: u32 = 7;
pub const LINK: u32 = 8;
pub const MAKEUP: u32 = 9;
pub const AUTO_MAKEUP: u32 = 10;
pub const MIX: u32 = 11;
pub const BYPASS: u32 = 12;
/// Read-only: how much gain the compressor is taking away, in dB at or below 0.
pub const REDUCTION: u32 = 13;
pub const RANGE: u32 = 14;
pub const SIDECHAIN_LISTEN: u32 = 15;
/// Read-only: the input level meter.
pub const INPUT_LEVEL: u32 = 16;
/// Read-only: the output level meter.
pub const OUTPUT_LEVEL: u32 = 17;

/// The `Detector` choices, by value.
pub const DETECTOR_PEAK: u32 = 0;
pub const DETECTOR_RMS: u32 = 1;

/// The `Sidechain HPF` choices, by value; `SIDECHAIN_HPF_HZ` gives each its
/// corner in hertz, with `0` standing for off.
pub const SIDECHAIN_HPF_OFF: u32 = 0;
pub const SIDECHAIN_HPF_HZ: [u32; 4] = [0, 60, 120, 250];

/// The corner, in hertz, of a sidechain filter choice; `0`, off, for a
/// position past the end of the list.
pub fn sidechain_corner_hz(choice: usize) -> (hz: u32)
    ensures
        hz == if choice < SIDECHAIN_HPF_HZ@.len() {
            SIDECHAIN_HPF_HZ@[choice as int]
        } else {
            0
        },
{
    if choice < SIDECHAIN_HPF_HZ.len() {
        SIDECHAIN_HPF_HZ[choice]
    } else {
        0
    }
}

} // verus!
