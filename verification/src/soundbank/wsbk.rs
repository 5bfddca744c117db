//! The synthesizer's own sample bank format: samples, instruments and
//! presets in a RIFF container of the type `wsbk`. All numbers are stored
//! least significant byte first.

pub mod consts;
pub mod error;
pub mod fourcc;
pub mod read;
pub mod round_trip;
pub mod write;

pub use error::WsbkError;

use std::collections::HashMap;
use std::sync::Arc;
use vstd::prelude::*;

verus! {

/// Whether a sample is mono or stereo.
#[derive(PartialEq, Eq, Structural, Clone, Copy, Debug)]
pub enum SampleType {
    Mono,
    Stereo,
}

impl SampleType {
    /// The byte that stands for the type.
    pub open spec fn byte(self) -> u8 {
        match self {
            SampleType::Mono => 0x00,
            SampleType::Stereo => 0x01,
        }
    }

    /// The type that a byte stands for, if it stands for one.
    pub open spec fn of_byte(val: u8) -> Option<Self> {
        if val == 0x00 {
            Some(SampleType::Mono)
        } else if val == 0x01 {
            Some(SampleType::Stereo)
        } else {
            None
        }
    }

    pub fn from_byte(val: u8) -> (res: Result<Self, WsbkError>)
        ensures
            match res {
                Ok(t) => Self::of_byte(val) == Some(t),
                Err(e) => Self::of_byte(val) is None && e == WsbkError::InvalidSampleType,
            },
    {
        match val {
            0x00 => Ok(SampleType::Mono),
            0x01 => Ok(SampleType::Stereo),
            _ => Err(WsbkError::InvalidSampleType),
        }
    }

    pub fn as_byte(&self) -> (res: u8)
        ensures
            res == self.byte(),
    {
        match self {
            SampleType::Mono => 0x00,
            SampleType::Stereo => 0x01,
        }
    }
}

/// How a sample loops.
#[derive(PartialEq, Eq, Structural, Clone, Copy, Debug)]
pub enum LoopType {
    NoLoop,
    Infinite,
    UntilReleased,
}

impl LoopType {
    /// The byte that stands for the way of looping.
    pub open spec fn byte(self) -> u8 {
        match self {
            LoopType::NoLoop => 0x00,
            LoopType::Infinite => 0x01,
            LoopType::UntilReleased => 0x02,
        }
    }

    /// The way of looping that a byte stands for, if it stands for one.
    pub open spec fn of_byte(val: u8) -> Option<Self> {
        if val == 0x00 {
            Some(LoopType::NoLoop)
        } else if val == 0x01 {
            Some(LoopType::Infinite)
        } else if val == 0x02 {
            Some(LoopType::UntilReleased)
        } else {
            None
        }
    }

    pub fn from_byte(val: u8) -> (res: Result<Self, WsbkError>)
        ensures
            match res {
                Ok(t) => Self::of_byte(val) == Some(t),
                Err(e) => Self::of_byte(val) is None && e == WsbkError::InvalidLoopType,
            },
    {
        match val {
            0x00 => Ok(LoopType::NoLoop),
            0x01 => Ok(LoopType::Infinite),
            0x02 => Ok(LoopType::UntilReleased),
            _ => Err(WsbkError::InvalidLoopType),
        }
    }

    pub fn as_byte(&self) -> (res: u8)
        ensures
            res == self.byte(),
    {
        match self {
            LoopType::NoLoop => 0x00,
            LoopType::Infinite => 0x01,
            LoopType::UntilReleased => 0x02,
        }
    }
}

/// Whether a preset is melodic or a drum set.
#[derive(PartialEq, Eq, Structural, Clone, Copy, Debug)]
pub enum PresetType {
    Melodic,
    Drum,
}

impl PresetType {
    /// The byte that stands for the type.
    pub open spec fn byte(self) -> u8 {
        match self {
            PresetType::Melodic => 0x00,
            PresetType::Drum => 0x01,
        }
    }

    /// The type that a byte stands for, if it stands for one.
    pub open spec fn of_byte(val: u8) -> Option<Self> {
        if val == 0x00 {
            Some(PresetType::Melodic)
        } else if val == 0x01 {
            Some(PresetType::Drum)
        } else {
            None
        }
    }

    pub fn from_byte(val: u8) -> (res: Result<Self, WsbkError>)
        ensures
            match res {
                Ok(t) => Self::of_byte(val) == Some(t),
                Err(e) => Self::of_byte(val) is None && e == WsbkError::InvalidPresetType,
            },
    {
        match val {
            0x00 => Ok(PresetType::Melodic),
            0x01 => Ok(PresetType::Drum),
            _ => Err(WsbkError::InvalidPresetType),
        }
    }

    pub fn as_byte(&self) -> (res: u8)
        ensures
            res == self.byte(),
    {
        match self {
            PresetType::Melodic => 0x00,
            PresetType::Drum => 0x01,
        }
    }
}

/// A byte that stands for a type stands for the type it was made from.
pub proof fn lemma_type_bytes_round_trip(s: SampleType, l: LoopType, p: PresetType)
    ensures
        SampleType::of_byte(s.byte()) == Some(s),
        LoopType::of_byte(l.byte()) == Some(l),
        PresetType::of_byte(p.byte()) == Some(p),
{
}

/// A sample as plain values.
pub struct SampleView {
    pub name: Seq<char>,
    pub bit_depth: u16,
    pub sample_rate: u32,
    pub sample_type: SampleType,
    pub loop_start: u32,
    pub loop_end: u32,
    pub loop_type: LoopType,
    pub base_key: u8,
    pub cent_correction: i8,
    pub data: Seq<u8>,
}

/// A sample.
#[derive(Debug)]
pub struct Sample {
    pub name: String,
    /// The bits of one sample: 16 or 24 for integers, 32 or 64 for floating
    /// point numbers.
    pub bit_depth: u16,
    /// Samples a second.
    pub sample_rate: u32,
    pub sample_type: SampleType,
    /// Start and end of the loop, counted in samples.
    pub loop_start: u32,
    pub loop_end: u32,
    pub loop_type: LoopType,
    /// The key at which the sample sounds as it was recorded.
    pub base_key: u8,
    /// A correction of the pitch in cents: 100 are one key.
    pub cent_correction: i8,
    /// The sample data. A stereo sample holds left and right in turn.
    pub data: Arc<Vec<u8>>,
}

/// A sample that holds nothing yet: 32 bits, 48000 samples a second,
/// stereo, no loop, key 60, no correction, no data.
pub open spec fn blank_sample(name: Seq<char>) -> SampleView {
    SampleView {
        name,
        bit_depth: 32,
        sample_rate: 48000,
        sample_type: SampleType::Stereo,
        loop_start: 0,
        loop_end: 0,
        loop_type: LoopType::NoLoop,
        base_key: 60,
        cent_correction: 0,
        data: Seq::empty(),
    }
}

impl Sample {
    pub open spec fn view(&self) -> SampleView {
        SampleView {
            name: self.name@,
            bit_depth: self.bit_depth,
            sample_rate: self.sample_rate,
            sample_type: self.sample_type,
            loop_start: self.loop_start,
            loop_end: self.loop_end,
            loop_type: self.loop_type,
            base_key: self.base_key,
            cent_correction: self.cent_correction,
            data: (*self.data)@,
        }
    }

    /// The length of a sample header.
    pub const SMHD_LEN: u32 = 18;

    /// A sample of the given name that holds nothing yet.
    pub fn new(name: &str) -> (res: Self)
        ensures
            res@ == blank_sample(name@),
    {
        Self {
            name: name.to_owned(),
            bit_depth: 32,
            sample_rate: 48000,
            sample_type: SampleType::Stereo,
            loop_start: 0,
            loop_end: 0,
            loop_type: LoopType::NoLoop,
            base_key: 60,
            cent_correction: 0,
            data: Arc::new(Vec::new()),
        }
    }
}

/// A rule that routes a source and a control, each through its transform,
/// to a destination.
#[derive(PartialEq, Eq, Structural, Clone, Copy, Debug)]
pub struct Articulator {
    pub src: u32,
    pub src_transform: u8,
    pub control: u32,
    pub control_transform: u8,
    pub destination: u32,
    pub main_transform: u8,
    /// The scale factor, as the 64 bits of a double precision number.
    pub scale_bits: u64,
}

/// A region as plain values.
pub struct RegionView {
    pub key_range: (u8, u8),
    pub velocity_range: (u8, u8),
    pub target_index: u32,
    pub generators: Map<u16, i32>,
    pub articulators: Seq<Articulator>,
}

/// A region: the keys and velocities that it answers to, and what it plays.
#[derive(Debug)]
pub struct Region {
    pub key_range: (u8, u8),
    pub velocity_range: (u8, u8),
    /// The sample of an instrument's region, the instrument of a preset's.
    pub target_index: u32,
    pub generators: HashMap<u16, i32>,
    pub articulators: Vec<Articulator>,
}

impl Region {
    pub open spec fn view(&self) -> RegionView {
        RegionView {
            key_range: self.key_range,
            velocity_range: self.velocity_range,
            target_index: self.target_index,
            generators: self.generators@,
            articulators: self.articulators@,
        }
    }

    /// The length of a region header.
    pub const RGNH_LEN: u32 = 8;
}

/// The regions of a run, as plain values.
pub open spec fn region_views(regions: Seq<Region>) -> Seq<RegionView> {
    Seq::new(regions.len(), |i: int| regions[i]@)
}

/// An instrument as plain values.
pub struct InstrumentView {
    pub name: Seq<char>,
    pub regions: Seq<RegionView>,
}

/// An instrument: a name and regions that point to samples.
#[derive(Debug)]
pub struct Instrument {
    pub name: String,
    pub regions: Vec<Region>,
}

impl Instrument {
    pub open spec fn view(&self) -> InstrumentView {
        InstrumentView { name: self.name@, regions: region_views(self.regions@) }
    }
}

/// A preset as plain values.
pub struct PresetView {
    pub name: Seq<char>,
    pub program_no: u16,
    pub bank_msb: u8,
    pub bank_lsb: u8,
    pub type_flag: PresetType,
    pub regions: Seq<RegionView>,
}

/// A preset: a program in a bank, and regions that point to instruments.
#[derive(Debug)]
pub struct Preset {
    pub name: String,
    pub program_no: u16,
    pub bank_msb: u8,
    pub bank_lsb: u8,
    pub type_flag: PresetType,
    pub regions: Vec<Region>,
}

impl Preset {
    pub open spec fn view(&self) -> PresetView {
        PresetView {
            name: self.name@,
            program_no: self.program_no,
            bank_msb: self.bank_msb,
            bank_lsb: self.bank_lsb,
            type_flag: self.type_flag,
            regions: region_views(self.regions@),
        }
    }

    /// The length of a preset header.
    pub const PRSH_LEN: u32 = 5;
}

/// A bank as plain values.
pub struct WSBKView {
    pub samples: Seq<SampleView>,
    pub instruments: Seq<InstrumentView>,
    pub presets: Seq<PresetView>,
}

/// A bank.
#[derive(Debug)]
pub struct WSBK {
    pub samples: Vec<Sample>,
    pub instruments: Vec<Instrument>,
    pub presets: Vec<Preset>,
}

/// The samples of a run, as plain values.
pub open spec fn sample_views(samples: Seq<Sample>) -> Seq<SampleView> {
    Seq::new(samples.len(), |i: int| samples[i]@)
}

/// The instruments of a run, as plain values.
pub open spec fn instrument_views(instruments: Seq<Instrument>) -> Seq<InstrumentView> {
    Seq::new(instruments.len(), |i: int| instruments[i]@)
}

/// The presets of a run, as plain values.
pub open spec fn preset_views(presets: Seq<Preset>) -> Seq<PresetView> {
    Seq::new(presets.len(), |i: int| presets[i]@)
}

impl WSBK {
    pub open spec fn view(&self) -> WSBKView {
        WSBKView {
            samples: sample_views(self.samples@),
            instruments: instrument_views(self.instruments@),
            presets: preset_views(self.presets@),
        }
    }

    /// A bank that holds nothing.
    pub fn new() -> (res: Self)
        ensures
            res@.samples.len() == 0,
            res@.instruments.len() == 0,
            res@.presets.len() == 0,
    {
        Self { samples: Vec::new(), instruments: Vec::new(), presets: Vec::new() }
    }
}

} // verus!
