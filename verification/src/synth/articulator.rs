//! Articulation: how a source and a control are routed to a destination, as
//! far as it is decided by the identifiers and the transform bytes.

use crate::soundbank::wsbk::consts::{artc_src, artc_transform};
use crate::soundbank::wsbk::Articulator;
use vstd::prelude::*;

verus! {

/// The range in which a source delivers its values.
#[derive(PartialEq, Eq, Structural, Clone, Copy, Debug)]
pub enum SourceRange {
    /// 0 to 16383: the pitch wheel.
    Wheel,
    /// 0 to 127: velocity, note number, aftertouch and control changes.
    Midi,
    /// 0 to 1: the envelopes.
    Unit,
    /// -1 to 1: the oscillators.
    Bipolar,
}

/// The range of a source, and none for what is no source of values.
pub open spec fn range_of(val_type: u32) -> Option<SourceRange> {
    if val_type == artc_src::PITCH_WHEEL {
        Some(SourceRange::Wheel)
    } else if val_type == artc_src::NOTE_ON_VELOCITY || val_type == artc_src::NOTE_NUMBER
        || val_type == artc_src::NOTE_AFTERTOUCH || val_type == artc_src::CHANNEL_AFTERTOUCH
        || artc_src::block_base(val_type) == artc_src::MIDI_CONTROL_CHANGE {
        Some(SourceRange::Midi)
    } else if val_type == artc_src::VOLUME_ENV || val_type == artc_src::MODULATION_ENV {
        Some(SourceRange::Unit)
    } else if val_type == artc_src::MODULATION_LFO || val_type == artc_src::VIBRATO_LFO {
        Some(SourceRange::Bipolar)
    } else {
        None
    }
}

/// The range in which the source `val_type` delivers its values.
pub fn source_range(val_type: u32) -> (res: Option<SourceRange>)
    ensures
        res == range_of(val_type),
{
    if val_type == artc_src::PITCH_WHEEL {
        Some(SourceRange::Wheel)
    } else if val_type == artc_src::NOTE_ON_VELOCITY || val_type == artc_src::NOTE_NUMBER
        || val_type == artc_src::NOTE_AFTERTOUCH || val_type == artc_src::CHANNEL_AFTERTOUCH
        || artc_src::is_midi_cc(val_type) {
        Some(SourceRange::Midi)
    } else if val_type == artc_src::VOLUME_ENV || val_type == artc_src::MODULATION_ENV {
        Some(SourceRange::Unit)
    } else if val_type == artc_src::MODULATION_LFO || val_type == artc_src::VIBRATO_LFO {
        Some(SourceRange::Bipolar)
    } else {
        None
    }
}

/// The curve of a transform.
#[derive(PartialEq, Eq, Structural, Clone, Copy, Debug)]
pub enum Curve {
    Linear,
    Concave,
    Convex,
    Switch,
}

/// What a transform byte asks for: a curve, after an inversion, on both
/// sides of zero, or both.
#[derive(PartialEq, Eq, Structural, Clone, Copy, Debug)]
pub struct Transform {
    /// The curve, and none where the low four bits name no curve.
    pub curve: Option<Curve>,
    /// The value is taken away from one before anything else.
    pub inverted: bool,
    /// The value is spread over -1 to 1, and the curve is applied to its
    /// size, keeping its sign.
    pub bipolar: bool,
}

/// The curve that the low four bits of a transform byte name.
pub open spec fn curve_of(transform: u8) -> Option<Curve> {
    let low = artc_transform::curve_bits(transform);
    if low == artc_transform::LINEAR {
        Some(Curve::Linear)
    } else if low == artc_transform::CONCAVE {
        Some(Curve::Concave)
    } else if low == artc_transform::CONVEX {
        Some(Curve::Convex)
    } else if low == artc_transform::SWITCH {
        Some(Curve::Switch)
    } else {
        None
    }
}

/// What a transform byte asks for.
pub open spec fn transform_of(transform: u8) -> Transform {
    Transform {
        curve: curve_of(transform),
        inverted: artc_transform::inverted_flag(transform),
        bipolar: artc_transform::bipolar_flag(transform),
    }
}

/// Takes a transform byte apart.
pub fn decode_transform(transform: u8) -> (res: Transform)
    ensures
        res == transform_of(transform),
{
    let low: u8 = artc_transform::curve(transform);
    let curve: Option<Curve> = if low == artc_transform::LINEAR {
        Some(Curve::Linear)
    } else if low == artc_transform::CONCAVE {
        Some(Curve::Concave)
    } else if low == artc_transform::CONVEX {
        Some(Curve::Convex)
    } else if low == artc_transform::SWITCH {
        Some(Curve::Switch)
    } else {
        None
    };
    Transform {
        curve,
        inverted: artc_transform::is_inverted(transform),
        bipolar: artc_transform::is_bipolar(transform),
    }
}

/// What an articulator asks of its source, of its control and of their
/// product.
#[derive(PartialEq, Eq, Structural, Clone, Copy, Debug)]
pub struct Routing {
    pub src_range: Option<SourceRange>,
    pub src_transform: Transform,
    pub control_range: Option<SourceRange>,
    pub control_transform: Transform,
    pub main_transform: Transform,
}

/// Takes an articulator apart.
pub fn routing(articulator: &Articulator) -> (res: Routing)
    ensures
        res.src_range == range_of(articulator.src),
        res.src_transform == transform_of(articulator.src_transform),
        res.control_range == range_of(articulator.control),
        res.control_transform == transform_of(articulator.control_transform),
        res.main_transform == transform_of(articulator.main_transform),
{
    Routing {
        src_range: source_range(articulator.src),
        src_transform: decode_transform(articulator.src_transform),
        control_range: source_range(articulator.control),
        control_transform: decode_transform(articulator.control_transform),
        main_transform: decode_transform(articulator.main_transform),
    }
}

/// The articulators of one voice.
pub struct ArticulationUnit {
    pub articulators: Vec<Articulator>,
}

impl ArticulationUnit {
    /// Applies the articulators to the values of a voice. No articulator
    /// changes a value yet.
    pub fn process(artc_val: &mut AriculationValues)
        ensures
            *final(artc_val) == *old(artc_val),
    {
    }
}

/// The values that articulators add to, in the units of the bank format:
/// gain in thousandths of a decibel, pitch in tenths of a cent, pan from
/// -10000 to 10000, send levels and sustain levels in hundredths of a
/// percent, frequencies and times as 10000 times the binary logarithm of
/// hertz or milliseconds.
#[derive(PartialEq, Eq, Structural, Clone, Copy, Debug)]
pub struct AriculationValues {
    pub gain: i32,
    pub pitch: i32,
    pub pan: i32,
    pub reverb_send_coeff: i32,
    pub chorus_send_coeff: i32,
    pub modulation_lfo_freq: i32,
    pub modulation_lfo_start_delay: i32,
    pub vibrato_lfo_freq: i32,
    pub vibrato_lfo_start_delay: i32,
    pub volume_env_delay: i32,
    pub volume_env_attack: i32,
    pub volume_env_hold: i32,
    pub volume_env_decay: i32,
    pub volume_env_sustain: i32,
    pub volume_env_release: i32,
    pub modulation_env_delay: i32,
    pub modulation_env_attack: i32,
    pub modulation_env_hold: i32,
    pub modulation_env_decay: i32,
    pub modulation_env_sustain: i32,
    pub modulation_env_release: i32,
    pub lpf_cutoff: i32,
    pub lpf_q: i32,
    pub hpf_cutoff: i32,
    pub hpf_q: i32,
}

/// The shortest time and the lowest frequency that can be said.
pub const LOWEST: i32 = -2147483648;

/// The values at rest: no gain, pitch or pan, full send levels, no
/// oscillator delay, envelopes that rise at once and sustain fully, a
/// low-pass that is wide open and a high-pass that is shut.
pub open spec fn values_at_rest() -> AriculationValues {
    AriculationValues {
        gain: 0,
        pitch: 0,
        pan: 0,
        reverb_send_coeff: 10000,
        chorus_send_coeff: 10000,
        modulation_lfo_freq: 0,
        modulation_lfo_start_delay: LOWEST,
        vibrato_lfo_freq: 0,
        vibrato_lfo_start_delay: LOWEST,
        volume_env_delay: LOWEST,
        volume_env_attack: LOWEST,
        volume_env_hold: LOWEST,
        volume_env_decay: LOWEST,
        volume_env_sustain: 10000,
        volume_env_release: LOWEST,
        modulation_env_delay: LOWEST,
        modulation_env_attack: LOWEST,
        modulation_env_hold: LOWEST,
        modulation_env_decay: LOWEST,
        modulation_env_sustain: 10000,
        modulation_env_release: LOWEST,
        lpf_cutoff: 143000,
        lpf_q: 0,
        hpf_cutoff: LOWEST,
        hpf_q: 0,
    }
}

impl AriculationValues {
    /// The values at rest.
    pub fn new() -> (res: Self)
        ensures
            res == values_at_rest(),
    {
        Self {
            gain: 0,
            pitch: 0,
            pan: 0,
            reverb_send_coeff: 10000,
            chorus_send_coeff: 10000,
            modulation_lfo_freq: 0,
            modulation_lfo_start_delay: LOWEST,
            vibrato_lfo_freq: 0,
            vibrato_lfo_start_delay: LOWEST,
            volume_env_delay: LOWEST,
            volume_env_attack: LOWEST,
            volume_env_hold: LOWEST,
            volume_env_decay: LOWEST,
            volume_env_sustain: 10000,
            volume_env_release: LOWEST,
            modulation_env_delay: LOWEST,
            modulation_env_attack: LOWEST,
            modulation_env_hold: LOWEST,
            modulation_env_decay: LOWEST,
            modulation_env_sustain: 10000,
            modulation_env_release: LOWEST,
            lpf_cutoff: 143000,
            lpf_q: 0,
            hpf_cutoff: LOWEST,
            hpf_q: 0,
        }
    }
}

} // verus!
