//! Identifiers of articulator destinations.

use vstd::prelude::*;

verus! {

pub const NONE: u32 = 0x0000;

pub const GAIN: u32 = 0x0001;

pub const PITCH: u32 = 0x0002;

pub const PAN: u32 = 0x0003;

pub const NOTE_ON_VELOCITY: u32 = 0x0004;

pub const NOTE_NUMBER: u32 = 0x0005;

pub const LEFT_SEND: u32 = 0x0020;

pub const RIGHT_SEND: u32 = 0x0021;

pub const CENTER_SEND: u32 = 0x0022;

pub const LFE_CHANNEL_SEND: u32 = 0x0023;

pub const LEFT_REAR_SEND: u32 = 0x0024;

pub const RIGHT_REAR_SEND: u32 = 0x0025;

pub const REVERB_SEND_COEFF: u32 = 0x0026;

pub const CHORUS_SEND_COEFF: u32 = 0x0027;

pub const MODULATION_LFO_FREQUENCY: u32 = 0x0100;

pub const MODULATION_LFO_START_DELAY: u32 = 0x0101;

pub const VIBRATO_LFO_FREQUENCY: u32 = 0x0110;

pub const VIBRATO_LFO_START_DELAY: u32 = 0x0111;

pub const VOLUME_ENV_DELAY: u32 = 0x0200;

pub const VOLUME_ENV_ATTACK: u32 = 0x0201;

pub const VOLUME_ENV_HOLD: u32 = 0x0202;

pub const VOLUME_ENV_DECAY: u32 = 0x0203;

pub const VOLUME_ENV_SUSTAIN: u32 = 0x0204;

pub const VOLUME_ENV_RELEASE: u32 = 0x0205;

pub const VOLUME_ENV_SHUTDOWN: u32 = 0x0206;

pub const MODULATION_ENV_DELAY: u32 = 0x0300;

pub const MODULATION_ENV_ATTACK: u32 = 0x0301;

pub const MODULATION_ENV_HOLD: u32 = 0x0302;

pub const MODULATION_ENV_DECAY: u32 = 0x0303;

pub const MODULATION_ENV_SUSTAIN: u32 = 0x0304;

pub const MODULATION_ENV_RELEASE: u32 = 0x0305;

pub const MODULATION_ENV_SHUTDOWN: u32 = 0x0306;

pub const LPF_CUTOFF: u32 = 0x0500;

pub const LPF_Q: u32 = 0x0501;

pub const HPF_CUTOFF: u32 = 0x0600;

pub const HPF_Q: u32 = 0x0601;

} // verus!
