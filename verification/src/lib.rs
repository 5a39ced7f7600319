//! RF-Comp, a feed-forward stereo compressor: its public contract and the
//! exact, discrete parts of the compressor around the signal path.
//!
//! * [`contract`] is every parameter the host can see and the pages the
//!   editor groups them on, with the laws the table keeps;
//! * [`index`] names the parameters by number;
//! * [`settings`] is the flat settings block and its validation, including
//!   blocks written by earlier builds;
//! * [`preset`] is the factory catalog;
//! * [`state`] is the serialised state: its layouts and its bytes;
//! * [`host`] is the routing between the host's interleaved blocks and the
//!   engine's stereo frames, and sample-accurate automation;
//! * [`text`] compares and reads text.
//!
//! Levels, times, ratios and percentages are counted in tenths of their
//! unit: every bound and every preset value the contract declares is a whole
//! number of tenths, so the tables state them exactly.

pub mod contract;
pub mod host;
pub mod index;
pub mod preset;
pub mod settings;
pub mod state;
pub mod text;
