//! A software MIDI sound synthesizer: sample bank data, MIDI decoding and the
//! integer side of the signal processing chain, with machine-checked contracts.

pub mod audio_drivers;
pub mod consts;
pub mod soundbank;
pub mod synth;
pub mod util;
