//! Reading a bank from the bytes of its container.

use crate::soundbank::bytes::{
    le_u16,
    le_u32,
    le_u64,
    read_u16,
    read_u32,
    read_u64,
    signed8,
    to_signed8,
};
use crate::soundbank::container::{
    are_headers,
    children_at,
    contents_at,
    fold_children,
    fold_chunks,
    id_at,
    is_header,
    lemma_fold_chunks_stays,
    len_at,
    read_children,
    chunk_contents,
    read_type,
    same_id,
    type_at,
    ChunkHeader,
    LIST_ID,
};
use crate::soundbank::text::text_of;
use crate::soundbank::wsbk::error::WsbkError;
use crate::soundbank::wsbk::fourcc;
use crate::soundbank::wsbk::{
    blank_sample,
    instrument_views,
    preset_views,
    region_views,
    sample_views,
    Articulator,
    Instrument,
    InstrumentView,
    LoopType,
    Preset,
    PresetType,
    PresetView,
    Region,
    RegionView,
    Sample,
    SampleType,
    SampleView,
    WSBKView,
    WSBK,
};
use std::collections::HashMap;
use std::sync::Arc;
use vstd::prelude::*;
use vstd::utf8::{decode_utf8, valid_utf8};

verus! {

/// The length of one articulator in an `artc` chunk.
pub const ARTICULATOR_LEN: usize = 23;

/// The articulator that record `i` of an `artc` chunk holds. The records
/// follow a count of four bytes.
pub open spec fn articulator_at(content: Seq<u8>, i: int) -> Articulator {
    let at = 4 + 23 * i;
    Articulator {
        src: le_u32(content, at) as u32,
        src_transform: content[at + 4],
        control: le_u32(content, at + 5) as u32,
        control_transform: content[at + 9],
        destination: le_u32(content, at + 10) as u32,
        main_transform: content[at + 14],
        scale_bits: le_u64(content, at + 15) as u64,
    }
}

/// The articulators of an `artc` chunk: as many as its count says. The
/// chunk is refused where it ends before the count or before the last of
/// them; what follows the last one is passed over.
pub open spec fn parsed_artc(content: Seq<u8>) -> Result<Seq<Articulator>, WsbkError> {
    if content.len() < 4 || content.len() < 4 + 23 * le_u32(content, 0) {
        Err(WsbkError::Io)
    } else {
        Ok(Seq::new(le_u32(content, 0) as nat, |i: int| articulator_at(content, i)))
    }
}

/// A region before any chunk was taken in: all keys, all velocities,
/// target 0, no generator, no articulator.
pub open spec fn blank_region() -> RegionView {
    RegionView {
        key_range: (0, 127),
        velocity_range: (0, 127),
        target_index: 0,
        generators: Map::empty(),
        articulators: Seq::empty(),
    }
}

/// The region after the chunk at `at` was taken in. A header sets the
/// ranges and the target, and must say that it holds 8 bytes or more. An
/// `artc` chunk adds its articulators behind those that are there. Any
/// other chunk is passed over.
pub open spec fn region_with_chunk(data: Seq<u8>, acc: RegionView, at: int) -> Result<
    RegionView,
    WsbkError,
> {
    let id = id_at(data, at);
    if id == fourcc::RGNH@ {
        if len_at(data, at) < 8 {
            Err(WsbkError::InvalidRegionHeaderLength)
        } else {
            match contents_at(data, at) {
                None => Err(WsbkError::Io),
                Some(c) => Ok(
                    RegionView {
                        key_range: (c[0], c[1]),
                        velocity_range: (c[2], c[3]),
                        target_index: le_u32(c, 4) as u32,
                        ..acc
                    },
                ),
            }
        }
    } else if id == fourcc::ARTC@ {
        match contents_at(data, at) {
            None => Err(WsbkError::Io),
            Some(c) => match parsed_artc(c) {
                Err(e) => Err(e),
                Ok(more) => Ok(RegionView { articulators: acc.articulators + more, ..acc }),
            },
        }
    } else {
        Ok(acc)
    }
}

/// Taking one chunk into a region, as a step of the walk.
pub open spec fn region_step(data: Seq<u8>) -> spec_fn(RegionView, int) -> Result<
    RegionView,
    WsbkError,
> {
    |acc: RegionView, at: int| region_with_chunk(data, acc, at)
}

/// The region that the `rgni` list at `at` holds.
pub open spec fn parsed_rgni(data: Seq<u8>, at: int) -> Result<RegionView, WsbkError> {
    fold_children(data, at, blank_region(), region_step(data), WsbkError::Io)
}

/// The regions after the chunk at `at` was taken in: a list of the type
/// `rgni` adds its region, anything else is passed over. The type is read
/// whatever the chunk is.
pub open spec fn regions_with_chunk(data: Seq<u8>, acc: Seq<RegionView>, at: int) -> Result<
    Seq<RegionView>,
    WsbkError,
> {
    match type_at(data, at) {
        None => Err(WsbkError::Io),
        Some(ty) => if ty == fourcc::RGNI@ {
            match parsed_rgni(data, at) {
                Err(e) => Err(e),
                Ok(region) => Ok(acc.push(region)),
            }
        } else {
            Ok(acc)
        },
    }
}

/// Taking one chunk into a run of regions, as a step of the walk.
pub open spec fn regions_step(data: Seq<u8>) -> spec_fn(Seq<RegionView>, int) -> Result<
    Seq<RegionView>,
    WsbkError,
> {
    |acc: Seq<RegionView>, at: int| regions_with_chunk(data, acc, at)
}

/// The regions that the `lrgn` list at `at` holds.
pub open spec fn parsed_lrgn(data: Seq<u8>, at: int) -> Result<Seq<RegionView>, WsbkError> {
    fold_children(data, at, Seq::empty(), regions_step(data), WsbkError::Io)
}

/// The text of the chunk at `at`.
pub open spec fn parsed_text(data: Seq<u8>, at: int) -> Result<Seq<char>, WsbkError> {
    match contents_at(data, at) {
        None => Err(WsbkError::Io),
        Some(c) => if valid_utf8(c) {
            Ok(decode_utf8(c))
        } else {
            Err(WsbkError::InvalidUtf8)
        },
    }
}

/// The sample after the chunk at `at` was taken in. A name adds to the
/// name. A header sets all numbers, and must say that it holds 18 bytes or
/// more. A data chunk becomes the data. Any other chunk is passed over.
pub open spec fn sample_with_chunk(data: Seq<u8>, acc: SampleView, at: int) -> Result<
    SampleView,
    WsbkError,
> {
    let id = id_at(data, at);
    if id == fourcc::NAME@ {
        match parsed_text(data, at) {
            Err(e) => Err(e),
            Ok(text) => Ok(SampleView { name: acc.name + text, ..acc }),
        }
    } else if id == fourcc::SMHD@ {
        if len_at(data, at) < 18 {
            Err(WsbkError::InvalidSampleHeaderLength)
        } else {
            match contents_at(data, at) {
                None => Err(WsbkError::Io),
                Some(c) => match SampleType::of_byte(c[6]) {
                    None => Err(WsbkError::InvalidSampleType),
                    Some(sample_type) => match LoopType::of_byte(c[15]) {
                        None => Err(WsbkError::InvalidLoopType),
                        Some(loop_type) => Ok(
                            SampleView {
                                bit_depth: le_u16(c, 0) as u16,
                                sample_rate: le_u32(c, 2) as u32,
                                sample_type,
                                loop_start: le_u32(c, 7) as u32,
                                loop_end: le_u32(c, 11) as u32,
                                loop_type,
                                base_key: c[16],
                                cent_correction: signed8(c[17] as int) as i8,
                                ..acc
                            },
                        ),
                    },
                },
            }
        }
    } else if id == fourcc::SMDT@ {
        match contents_at(data, at) {
            None => Err(WsbkError::Io),
            Some(c) => Ok(SampleView { data: c, ..acc }),
        }
    } else {
        Ok(acc)
    }
}

/// Taking one chunk into a sample, as a step of the walk.
pub open spec fn sample_step(data: Seq<u8>) -> spec_fn(SampleView, int) -> Result<
    SampleView,
    WsbkError,
> {
    |acc: SampleView, at: int| sample_with_chunk(data, acc, at)
}

/// The sample that the `smpl` list at `at` holds.
pub open spec fn parsed_smpl(data: Seq<u8>, at: int) -> Result<SampleView, WsbkError> {
    fold_children(data, at, blank_sample(Seq::empty()), sample_step(data), WsbkError::Io)
}

/// The samples after the chunk at `at` was taken in: a list of the type
/// `smpl` adds its sample, anything else is passed over.
pub open spec fn samples_with_chunk(data: Seq<u8>, acc: Seq<SampleView>, at: int) -> Result<
    Seq<SampleView>,
    WsbkError,
> {
    match type_at(data, at) {
        None => Err(WsbkError::Io),
        Some(ty) => if ty == fourcc::SMPL@ {
            match parsed_smpl(data, at) {
                Err(e) => Err(e),
                Ok(sample) => Ok(acc.push(sample)),
            }
        } else {
            Ok(acc)
        },
    }
}

/// Taking one chunk into a run of samples, as a step of the walk.
pub open spec fn samples_step(data: Seq<u8>) -> spec_fn(Seq<SampleView>, int) -> Result<
    Seq<SampleView>,
    WsbkError,
> {
    |acc: Seq<SampleView>, at: int| samples_with_chunk(data, acc, at)
}

/// The samples that the `smls` list at `at` holds.
pub open spec fn parsed_smls(data: Seq<u8>, at: int) -> Result<Seq<SampleView>, WsbkError> {
    fold_children(data, at, Seq::empty(), samples_step(data), WsbkError::Io)
}

/// The regions that the chunk at `at` adds to an instrument or a preset:
/// those of a list of the type `lrgn`, and none of any other list.
pub open spec fn list_regions(data: Seq<u8>, at: int) -> Result<Seq<RegionView>, WsbkError> {
    match type_at(data, at) {
        None => Err(WsbkError::Io),
        Some(ty) => if ty == fourcc::LRGN@ {
            parsed_lrgn(data, at)
        } else {
            Ok(Seq::empty())
        },
    }
}

/// The instrument after the chunk at `at` was taken in. A name adds to the
/// name, a list adds its regions. Any other chunk is passed over.
pub open spec fn instrument_with_chunk(data: Seq<u8>, acc: InstrumentView, at: int) -> Result<
    InstrumentView,
    WsbkError,
> {
    let id = id_at(data, at);
    if id == fourcc::NAME@ {
        match parsed_text(data, at) {
            Err(e) => Err(e),
            Ok(text) => Ok(InstrumentView { name: acc.name + text, ..acc }),
        }
    } else if id == LIST_ID@ {
        match list_regions(data, at) {
            Err(e) => Err(e),
            Ok(more) => Ok(InstrumentView { regions: acc.regions + more, ..acc }),
        }
    } else {
        Ok(acc)
    }
}

/// Taking one chunk into an instrument, as a step of the walk.
pub open spec fn instrument_step(data: Seq<u8>) -> spec_fn(InstrumentView, int) -> Result<
    InstrumentView,
    WsbkError,
> {
    |acc: InstrumentView, at: int| instrument_with_chunk(data, acc, at)
}

/// An instrument before any chunk was taken in: no name, no region.
pub open spec fn blank_instrument() -> InstrumentView {
    InstrumentView { name: Seq::empty(), regions: Seq::empty() }
}

/// The instrument that the `inst` list at `at` holds.
pub open spec fn parsed_inst(data: Seq<u8>, at: int) -> Result<InstrumentView, WsbkError> {
    fold_children(data, at, blank_instrument(), instrument_step(data), WsbkError::Io)
}

/// The instruments after the chunk at `at` was taken in.
pub open spec fn instruments_with_chunk(data: Seq<u8>, acc: Seq<InstrumentView>, at: int) -> Result<
    Seq<InstrumentView>,
    WsbkError,
> {
    match type_at(data, at) {
        None => Err(WsbkError::Io),
        Some(ty) => if ty == fourcc::INST@ {
            match parsed_inst(data, at) {
                Err(e) => Err(e),
                Ok(instrument) => Ok(acc.push(instrument)),
            }
        } else {
            Ok(acc)
        },
    }
}

/// Taking one chunk into a run of instruments, as a step of the walk.
pub open spec fn instruments_step(data: Seq<u8>) -> spec_fn(Seq<InstrumentView>, int) -> Result<
    Seq<InstrumentView>,
    WsbkError,
> {
    |acc: Seq<InstrumentView>, at: int| instruments_with_chunk(data, acc, at)
}

/// The instruments that the `lins` list at `at` holds.
pub open spec fn parsed_lins(data: Seq<u8>, at: int) -> Result<Seq<InstrumentView>, WsbkError> {
    fold_children(data, at, Seq::empty(), instruments_step(data), WsbkError::Io)
}

/// A preset before any chunk was taken in: no name, program 0 of bank 0,
/// melodic, no region.
pub open spec fn blank_preset() -> PresetView {
    PresetView {
        name: Seq::empty(),
        program_no: 0,
        bank_msb: 0,
        bank_lsb: 0,
        type_flag: PresetType::Melodic,
        regions: Seq::empty(),
    }
}

/// The preset after the chunk at `at` was taken in. A name adds to the
/// name. A header sets program, bank and type, and must say that it holds
/// 5 bytes or more. A list adds its regions. Any other chunk is passed
/// over.
pub open spec fn preset_with_chunk(data: Seq<u8>, acc: PresetView, at: int) -> Result<
    PresetView,
    WsbkError,
> {
    let id = id_at(data, at);
    if id == fourcc::NAME@ {
        match parsed_text(data, at) {
            Err(e) => Err(e),
            Ok(text) => Ok(PresetView { name: acc.name + text, ..acc }),
        }
    } else if id == fourcc::PRSH@ {
        if len_at(data, at) < 5 {
            Err(WsbkError::InvalidPresetHeaderLength)
        } else {
            match contents_at(data, at) {
                None => Err(WsbkError::Io),
                Some(c) => match PresetType::of_byte(c[4]) {
                    None => Err(WsbkError::InvalidPresetType),
                    Some(type_flag) => Ok(
                        PresetView {
                            program_no: le_u16(c, 0) as u16,
                            bank_msb: c[2],
                            bank_lsb: c[3],
                            type_flag,
                            ..acc
                        },
                    ),
                },
            }
        }
    } else if id == LIST_ID@ {
        match list_regions(data, at) {
            Err(e) => Err(e),
            Ok(more) => Ok(PresetView { regions: acc.regions + more, ..acc }),
        }
    } else {
        Ok(acc)
    }
}

/// Taking one chunk into a preset, as a step of the walk.
pub open spec fn preset_step(data: Seq<u8>) -> spec_fn(PresetView, int) -> Result<
    PresetView,
    WsbkError,
> {
    |acc: PresetView, at: int| preset_with_chunk(data, acc, at)
}

/// The preset that the `prst` list at `at` holds.
pub open spec fn parsed_prst(data: Seq<u8>, at: int) -> Result<PresetView, WsbkError> {
    fold_children(data, at, blank_preset(), preset_step(data), WsbkError::Io)
}

/// The presets after the chunk at `at` was taken in.
pub open spec fn presets_with_chunk(data: Seq<u8>, acc: Seq<PresetView>, at: int) -> Result<
    Seq<PresetView>,
    WsbkError,
> {
    match type_at(data, at) {
        None => Err(WsbkError::Io),
        Some(ty) => if ty == fourcc::PRST@ {
            match parsed_prst(data, at) {
                Err(e) => Err(e),
                Ok(preset) => Ok(acc.push(preset)),
            }
        } else {
            Ok(acc)
        },
    }
}

/// Taking one chunk into a run of presets, as a step of the walk.
pub open spec fn presets_step(data: Seq<u8>) -> spec_fn(Seq<PresetView>, int) -> Result<
    Seq<PresetView>,
    WsbkError,
> {
    |acc: Seq<PresetView>, at: int| presets_with_chunk(data, acc, at)
}

/// The presets that the `lprs` list at `at` holds.
pub open spec fn parsed_lprs(data: Seq<u8>, at: int) -> Result<Seq<PresetView>, WsbkError> {
    fold_children(data, at, Seq::empty(), presets_step(data), WsbkError::Io)
}

/// The bank after the list at `at` was taken in: a list of samples, of
/// instruments or of presets adds what it holds behind what is there, and
/// anything else is passed over.
pub open spec fn bank_with_list(data: Seq<u8>, acc: WSBKView, at: int) -> Result<
    WSBKView,
    WsbkError,
> {
    match type_at(data, at) {
        None => Err(WsbkError::Io),
        Some(ty) => if ty == fourcc::SMLS@ {
            match parsed_smls(data, at) {
                Err(e) => Err(e),
                Ok(more) => Ok(WSBKView { samples: acc.samples + more, ..acc }),
            }
        } else if ty == fourcc::LINS@ {
            match parsed_lins(data, at) {
                Err(e) => Err(e),
                Ok(more) => Ok(WSBKView { instruments: acc.instruments + more, ..acc }),
            }
        } else if ty == fourcc::LPRS@ {
            match parsed_lprs(data, at) {
                Err(e) => Err(e),
                Ok(more) => Ok(WSBKView { presets: acc.presets + more, ..acc }),
            }
        } else {
            Ok(acc)
        },
    }
}

/// Taking one list into a bank, as a step of the walk.
pub open spec fn bank_step(data: Seq<u8>) -> spec_fn(WSBKView, int) -> Result<WSBKView, WsbkError> {
    |acc: WSBKView, at: int| bank_with_list(data, acc, at)
}

/// A bank before any list was taken in.
pub open spec fn blank_bank() -> WSBKView {
    WSBKView { samples: Seq::empty(), instruments: Seq::empty(), presets: Seq::empty() }
}

/// The bank that `data` hold: the container at their start must be of the
/// type `wsbk`, and its lists are taken in one after the other.
pub open spec fn parsed_bank(data: Seq<u8>) -> Result<WSBKView, WsbkError> {
    match type_at(data, 0) {
        None => Err(WsbkError::Io),
        Some(ty) => if ty != fourcc::WSBK@ {
            Err(WsbkError::InvalidRiffType)
        } else {
            fold_children(data, 0, blank_bank(), bank_step(data), WsbkError::Io)
        },
    }
}

/// Reads the text of a chunk.
pub fn read_text(data: &[u8], chunk: &ChunkHeader) -> (res: Result<String, WsbkError>)
    ensures
        match res {
            Ok(text) => parsed_text(data@, chunk.pos as int) == Ok::<Seq<char>, WsbkError>(text@),
            Err(e) => parsed_text(data@, chunk.pos as int) == Err::<Seq<char>, WsbkError>(e),
        },
{
    let contents = match chunk_contents(data, chunk.pos) {
        Some(contents) => contents,
        None => {
            return Err(WsbkError::Io);
        },
    };
    match text_of(contents) {
        Some(text) => Ok(text),
        None => Err(WsbkError::InvalidUtf8),
    }
}

impl Articulator {
    /// Reads the articulators of an `artc` chunk.
    pub fn parse_artc(content: &[u8]) -> (res: Result<Vec<Articulator>, WsbkError>)
        ensures
            match res {
                Ok(out) => parsed_artc(content@) == Ok::<Seq<Articulator>, WsbkError>(out@),
                Err(e) => parsed_artc(content@) == Err::<Seq<Articulator>, WsbkError>(e),
            },
    {
        if content.len() < 4 {
            return Err(WsbkError::Io);
        }
        let count: u32 = read_u32(content, 0);
        let room: usize = (content.len() - 4) / ARTICULATOR_LEN;
        if room < count as usize {
            return Err(WsbkError::Io);
        }
        let mut out: Vec<Articulator> = Vec::new();
        let mut i: usize = 0;
        while i < count as usize
            invariant
                i <= count,
                4 + 23 * count <= content@.len() <= usize::MAX,
                out@.len() == i,
                forall|k: int| 0 <= k < i ==> #[trigger] out@[k] == articulator_at(content@, k),
            decreases count - i,
        {
            let at: usize = 4 + ARTICULATOR_LEN * i;
            out.push(
                Articulator {
                    src: read_u32(content, at),
                    src_transform: content[at + 4],
                    control: read_u32(content, at + 5),
                    control_transform: content[at + 9],
                    destination: read_u32(content, at + 10),
                    main_transform: content[at + 14],
                    scale_bits: read_u64(content, at + 15),
                },
            );
            i += 1;
        }
        assert(out@ =~= parsed_artc(content@)->Ok_0);
        Ok(out)
    }
}

impl Region {
    proof fn lemma_blank(r: Region)
        requires
            r.key_range == (0u8, 127u8),
            r.velocity_range == (0u8, 127u8),
            r.target_index == 0,
            r.generators@ == Map::<u16, i32>::empty(),
            r.articulators@.len() == 0,
        ensures
            r@ == blank_region(),
    {
        assert(r@.articulators =~= blank_region().articulators);
    }

    /// Takes one chunk into a region.
    pub fn add_chunk(data: &[u8], chunk: &ChunkHeader, region: Region) -> (res: Result<
        Region,
        WsbkError,
    >)
        requires
            is_header(*chunk, data@, chunk.pos as int),
        ensures
            match res {
                Ok(out) => region_with_chunk(data@, region@, chunk.pos as int) == Ok::<
                    RegionView,
                    WsbkError,
                >(out@),
                Err(e) => region_with_chunk(data@, region@, chunk.pos as int) == Err::<
                    RegionView,
                    WsbkError,
                >(e),
            },
    {
        let mut out = region;
        if same_id(&chunk.id, &fourcc::RGNH) {
            if chunk.len < Self::RGNH_LEN {
                return Err(WsbkError::InvalidRegionHeaderLength);
            }
            let contents = match chunk_contents(data, chunk.pos) {
                Some(contents) => contents,
                None => {
                    return Err(WsbkError::Io);
                },
            };
            out.key_range = (contents[0], contents[1]);
            out.velocity_range = (contents[2], contents[3]);
            out.target_index = read_u32(contents.as_slice(), 4);
            Ok(out)
        } else if same_id(&chunk.id, &fourcc::ARTC) {
            let contents = match chunk_contents(data, chunk.pos) {
                Some(contents) => contents,
                None => {
                    return Err(WsbkError::Io);
                },
            };
            let mut more = match Articulator::parse_artc(contents.as_slice()) {
                Ok(more) => more,
                Err(e) => {
                    return Err(e);
                },
            };
            out.articulators.append(&mut more);
            Ok(out)
        } else {
            Ok(out)
        }
    }

    /// Reads the region of an `rgni` list.
    pub fn parse_rgni(data: &[u8], at: u64) -> (res: Result<Region, WsbkError>)
        requires
            data@.len() <= isize::MAX,
        ensures
            match res {
                Ok(out) => parsed_rgni(data@, at as int) == Ok::<RegionView, WsbkError>(out@),
                Err(e) => parsed_rgni(data@, at as int) == Err::<RegionView, WsbkError>(e),
            },
    {
        let chunks: Vec<ChunkHeader> = match read_children(data, at) {
            Ok(chunks) => chunks,
            Err(_) => {
                return Err(WsbkError::Io);
            },
        };
        let ghost offsets = children_at(data@, at as int)->0;
        let ghost blank = blank_region();
        let mut out: Region = Region {
            key_range: (0, 127),
            velocity_range: (0, 127),
            target_index: 0,
            generators: HashMap::new(),
            articulators: Vec::new(),
        };
        assert(out@ == blank) by {
            Region::lemma_blank(out);
        }
        let mut i: usize = 0;
        while i < chunks.len()
            invariant
                i <= chunks@.len(),
                data@.len() <= isize::MAX,
                blank == blank_region(),
                are_headers(chunks@, data@, offsets),
                children_at(data@, at as int) == Some(offsets),
                fold_chunks(offsets, i as int, blank, region_step(data@)) == Ok::<
                    RegionView,
                    WsbkError,
                >(out@),
            decreases chunks@.len() - i,
        {
            let chunk: ChunkHeader = chunks[i];
            out = match Self::add_chunk(data, &chunk, out) {
                Ok(next) => next,
                Err(e) => {
                    proof {
                        lemma_fold_chunks_stays(
                            offsets,
                            i + 1,
                            offsets.len() as int,
                            blank,
                            region_step(data@),
                        );
                    }
                    return Err(e);
                },
            };
            i += 1;
        }
        Ok(out)
    }


    /// Reads the regions of an `lrgn` list.
    pub fn parse_lrgn(data: &[u8], at: u64) -> (res: Result<Vec<Region>, WsbkError>)
        requires
            data@.len() <= isize::MAX,
        ensures
            match res {
                Ok(out) => parsed_lrgn(data@, at as int) == Ok::<Seq<RegionView>, WsbkError>(
                    region_views(out@),
                ),
                Err(e) => parsed_lrgn(data@, at as int) == Err::<Seq<RegionView>, WsbkError>(e),
            },
    {
        let chunks: Vec<ChunkHeader> = match read_children(data, at) {
            Ok(chunks) => chunks,
            Err(_) => {
                return Err(WsbkError::Io);
            },
        };
        let ghost offsets = children_at(data@, at as int)->0;
        let ghost none = Seq::<RegionView>::empty();
        let mut out: Vec<Region> = Vec::new();
        assert(region_views(out@) =~= none);
        let mut i: usize = 0;
        while i < chunks.len()
            invariant
                i <= chunks@.len(),
                data@.len() <= isize::MAX,
                none == Seq::<RegionView>::empty(),
                are_headers(chunks@, data@, offsets),
                children_at(data@, at as int) == Some(offsets),
                fold_chunks(offsets, i as int, none, regions_step(data@)) == Ok::<
                    Seq<RegionView>,
                    WsbkError,
                >(region_views(out@)),
            decreases chunks@.len() - i,
        {
            let chunk: ChunkHeader = chunks[i];
            let ty: [u8; 4] = match read_type(data, chunk.pos) {
                Ok(ty) => ty,
                Err(_) => {
                    proof {
                        lemma_fold_chunks_stays(
                            offsets,
                            i + 1,
                            offsets.len() as int,
                            none,
                            regions_step(data@),
                        );
                    }
                    return Err(WsbkError::Io);
                },
            };
            if same_id(&ty, &fourcc::RGNI) {
                match Region::parse_rgni(data, chunk.pos) {
                    Ok(item) => {
                        let ghost before = region_views(out@);
                        out.push(item);
                        assert(region_views(out@) =~= before.push(item@));
                    },
                    Err(e) => {
                        proof {
                            lemma_fold_chunks_stays(
                                offsets,
                                i + 1,
                                offsets.len() as int,
                                none,
                                regions_step(data@),
                            );
                        }
                        return Err(e);
                    },
                }
            }
            i += 1;
        }
        Ok(out)
    }

}

/// Reads the regions that a chunk adds to an instrument or a preset.
pub fn read_list_regions(data: &[u8], chunk: &ChunkHeader) -> (res: Result<Vec<Region>, WsbkError>)
    requires
        data@.len() <= isize::MAX,
    ensures
        match res {
            Ok(out) => list_regions(data@, chunk.pos as int) == Ok::<Seq<RegionView>, WsbkError>(
                region_views(out@),
            ),
            Err(e) => list_regions(data@, chunk.pos as int) == Err::<Seq<RegionView>, WsbkError>(
                e,
            ),
        },
{
    let ty: [u8; 4] = match read_type(data, chunk.pos) {
        Ok(ty) => ty,
        Err(_) => {
            return Err(WsbkError::Io);
        },
    };
    if same_id(&ty, &fourcc::LRGN) {
        Region::parse_lrgn(data, chunk.pos)
    } else {
        let out: Vec<Region> = Vec::new();
        assert(region_views(out@) =~= Seq::<RegionView>::empty());
        Ok(out)
    }
}

impl Sample {
    proof fn lemma_blank(s: Sample)
        requires
            s.name@ == Seq::<char>::empty(),
            s.bit_depth == 32,
            s.sample_rate == 48000,
            s.sample_type == SampleType::Stereo,
            s.loop_start == 0,
            s.loop_end == 0,
            s.loop_type == LoopType::NoLoop,
            s.base_key == 60,
            s.cent_correction == 0,
            (*s.data)@.len() == 0,
        ensures
            s@ == blank_sample(Seq::empty()),
    {
        assert(s@.data =~= Seq::<u8>::empty());
    }

    /// Takes one chunk into a sample.
    pub fn add_chunk(data: &[u8], chunk: &ChunkHeader, sample: Sample) -> (res: Result<
        Sample,
        WsbkError,
    >)
        requires
            is_header(*chunk, data@, chunk.pos as int),
        ensures
            match res {
                Ok(out) => sample_with_chunk(data@, sample@, chunk.pos as int) == Ok::<
                    SampleView,
                    WsbkError,
                >(out@),
                Err(e) => sample_with_chunk(data@, sample@, chunk.pos as int) == Err::<
                    SampleView,
                    WsbkError,
                >(e),
            },
    {
        let mut out = sample;
        if same_id(&chunk.id, &fourcc::NAME) {
            let text = match read_text(data, chunk) {
                Ok(text) => text,
                Err(e) => {
                    return Err(e);
                },
            };
            out.name.push_str(text.as_str());
            Ok(out)
        } else if same_id(&chunk.id, &fourcc::SMHD) {
            if chunk.len < Self::SMHD_LEN {
                return Err(WsbkError::InvalidSampleHeaderLength);
            }
            let contents = match chunk_contents(data, chunk.pos) {
                Some(contents) => contents,
                None => {
                    return Err(WsbkError::Io);
                },
            };
            let c: &[u8] = contents.as_slice();
            let sample_type = match SampleType::from_byte(c[6]) {
                Ok(t) => t,
                Err(e) => {
                    return Err(e);
                },
            };
            let loop_type = match LoopType::from_byte(c[15]) {
                Ok(t) => t,
                Err(e) => {
                    return Err(e);
                },
            };
            out.bit_depth = read_u16(c, 0);
            out.sample_rate = read_u32(c, 2);
            out.sample_type = sample_type;
            out.loop_start = read_u32(c, 7);
            out.loop_end = read_u32(c, 11);
            out.loop_type = loop_type;
            out.base_key = c[16];
            out.cent_correction = to_signed8(c[17]);
            Ok(out)
        } else if same_id(&chunk.id, &fourcc::SMDT) {
            let contents = match chunk_contents(data, chunk.pos) {
                Some(contents) => contents,
                None => {
                    return Err(WsbkError::Io);
                },
            };
            out.data = Arc::new(contents);
            Ok(out)
        } else {
            Ok(out)
        }
    }

    /// Reads the sample of an `smpl` list.
    pub fn parse_smpl(data: &[u8], at: u64) -> (res: Result<Sample, WsbkError>)
        requires
            data@.len() <= isize::MAX,
        ensures
            match res {
                Ok(out) => parsed_smpl(data@, at as int) == Ok::<SampleView, WsbkError>(out@),
                Err(e) => parsed_smpl(data@, at as int) == Err::<SampleView, WsbkError>(e),
            },
    {
        let chunks: Vec<ChunkHeader> = match read_children(data, at) {
            Ok(chunks) => chunks,
            Err(_) => {
                return Err(WsbkError::Io);
            },
        };
        let ghost offsets = children_at(data@, at as int)->0;
        let ghost blank = blank_sample(Seq::empty());
        let mut out: Sample = Sample {
            name: String::new(),
            bit_depth: 32,
            sample_rate: 48000,
            sample_type: SampleType::Stereo,
            loop_start: 0,
            loop_end: 0,
            loop_type: LoopType::NoLoop,
            base_key: 60,
            cent_correction: 0,
            data: Arc::new(Vec::new()),
        };
        assert(out@ == blank) by {
            Sample::lemma_blank(out);
        }
        let mut i: usize = 0;
        while i < chunks.len()
            invariant
                i <= chunks@.len(),
                data@.len() <= isize::MAX,
                blank == blank_sample(Seq::empty()),
                are_headers(chunks@, data@, offsets),
                children_at(data@, at as int) == Some(offsets),
                fold_chunks(offsets, i as int, blank, sample_step(data@)) == Ok::<
                    SampleView,
                    WsbkError,
                >(out@),
            decreases chunks@.len() - i,
        {
            let chunk: ChunkHeader = chunks[i];
            out = match Self::add_chunk(data, &chunk, out) {
                Ok(next) => next,
                Err(e) => {
                    proof {
                        lemma_fold_chunks_stays(
                            offsets,
                            i + 1,
                            offsets.len() as int,
                            blank,
                            sample_step(data@),
                        );
                    }
                    return Err(e);
                },
            };
            i += 1;
        }
        Ok(out)
    }


    /// Reads the samples of an `smls` list.
    pub fn parse_smls(data: &[u8], at: u64) -> (res: Result<Vec<Sample>, WsbkError>)
        requires
            data@.len() <= isize::MAX,
        ensures
            match res {
                Ok(out) => parsed_smls(data@, at as int) == Ok::<Seq<SampleView>, WsbkError>(
                    sample_views(out@),
                ),
                Err(e) => parsed_smls(data@, at as int) == Err::<Seq<SampleView>, WsbkError>(e),
            },
    {
        let chunks: Vec<ChunkHeader> = match read_children(data, at) {
            Ok(chunks) => chunks,
            Err(_) => {
                return Err(WsbkError::Io);
            },
        };
        let ghost offsets = children_at(data@, at as int)->0;
        let ghost none = Seq::<SampleView>::empty();
        let mut out: Vec<Sample> = Vec::new();
        assert(sample_views(out@) =~= none);
        let mut i: usize = 0;
        while i < chunks.len()
            invariant
                i <= chunks@.len(),
                data@.len() <= isize::MAX,
                none == Seq::<SampleView>::empty(),
                are_headers(chunks@, data@, offsets),
                children_at(data@, at as int) == Some(offsets),
                fold_chunks(offsets, i as int, none, samples_step(data@)) == Ok::<
                    Seq<SampleView>,
                    WsbkError,
                >(sample_views(out@)),
            decreases chunks@.len() - i,
        {
            let chunk: ChunkHeader = chunks[i];
            let ty: [u8; 4] = match read_type(data, chunk.pos) {
                Ok(ty) => ty,
                Err(_) => {
                    proof {
                        lemma_fold_chunks_stays(
                            offsets,
                            i + 1,
                            offsets.len() as int,
                            none,
                            samples_step(data@),
                        );
                    }
                    return Err(WsbkError::Io);
                },
            };
            if same_id(&ty, &fourcc::SMPL) {
                match Sample::parse_smpl(data, chunk.pos) {
                    Ok(item) => {
                        let ghost before = sample_views(out@);
                        out.push(item);
                        assert(sample_views(out@) =~= before.push(item@));
                    },
                    Err(e) => {
                        proof {
                            lemma_fold_chunks_stays(
                                offsets,
                                i + 1,
                                offsets.len() as int,
                                none,
                                samples_step(data@),
                            );
                        }
                        return Err(e);
                    },
                }
            }
            i += 1;
        }
        Ok(out)
    }

}

impl Instrument {
    proof fn lemma_blank(x: Instrument)
        requires
            x.name@ == Seq::<char>::empty(),
            x.regions@.len() == 0,
        ensures
            x@ == blank_instrument(),
    {
        assert(x@.regions =~= Seq::<RegionView>::empty());
    }

    /// Takes one chunk into an instrument.
    pub fn add_chunk(data: &[u8], chunk: &ChunkHeader, instrument: Instrument) -> (res: Result<
        Instrument,
        WsbkError,
    >)
        requires
            data@.len() <= isize::MAX,
            is_header(*chunk, data@, chunk.pos as int),
        ensures
            match res {
                Ok(out) => instrument_with_chunk(data@, instrument@, chunk.pos as int) == Ok::<
                    InstrumentView,
                    WsbkError,
                >(out@),
                Err(e) => instrument_with_chunk(data@, instrument@, chunk.pos as int) == Err::<
                    InstrumentView,
                    WsbkError,
                >(e),
            },
    {
        let mut out = instrument;
        if same_id(&chunk.id, &fourcc::NAME) {
            let text = match read_text(data, chunk) {
                Ok(text) => text,
                Err(e) => {
                    return Err(e);
                },
            };
            out.name.push_str(text.as_str());
            Ok(out)
        } else if same_id(&chunk.id, &LIST_ID) {
            let mut more = match read_list_regions(data, chunk) {
                Ok(more) => more,
                Err(e) => {
                    return Err(e);
                },
            };
            let ghost before = region_views(out.regions@);
            let ghost added = region_views(more@);
            out.regions.append(&mut more);
            assert(region_views(out.regions@) =~= before + added);
            Ok(out)
        } else {
            Ok(out)
        }
    }

    /// Reads the instrument of an `inst` list.
    pub fn parse_inst(data: &[u8], at: u64) -> (res: Result<Instrument, WsbkError>)
        requires
            data@.len() <= isize::MAX,
        ensures
            match res {
                Ok(out) => parsed_inst(data@, at as int) == Ok::<InstrumentView, WsbkError>(out@),
                Err(e) => parsed_inst(data@, at as int) == Err::<InstrumentView, WsbkError>(e),
            },
    {
        let chunks: Vec<ChunkHeader> = match read_children(data, at) {
            Ok(chunks) => chunks,
            Err(_) => {
                return Err(WsbkError::Io);
            },
        };
        let ghost offsets = children_at(data@, at as int)->0;
        let ghost blank = blank_instrument();
        let mut out: Instrument = Instrument { name: String::new(), regions: Vec::new() };
        assert(out@ == blank) by {
            Instrument::lemma_blank(out);
        }
        let mut i: usize = 0;
        while i < chunks.len()
            invariant
                i <= chunks@.len(),
                data@.len() <= isize::MAX,
                blank == blank_instrument(),
                are_headers(chunks@, data@, offsets),
                children_at(data@, at as int) == Some(offsets),
                fold_chunks(offsets, i as int, blank, instrument_step(data@)) == Ok::<
                    InstrumentView,
                    WsbkError,
                >(out@),
            decreases chunks@.len() - i,
        {
            let chunk: ChunkHeader = chunks[i];
            out = match Self::add_chunk(data, &chunk, out) {
                Ok(next) => next,
                Err(e) => {
                    proof {
                        lemma_fold_chunks_stays(
                            offsets,
                            i + 1,
                            offsets.len() as int,
                            blank,
                            instrument_step(data@),
                        );
                    }
                    return Err(e);
                },
            };
            i += 1;
        }
        Ok(out)
    }


    /// Reads the instruments of an `lins` list.
    pub fn parse_lins(data: &[u8], at: u64) -> (res: Result<Vec<Instrument>, WsbkError>)
        requires
            data@.len() <= isize::MAX,
        ensures
            match res {
                Ok(out) => parsed_lins(data@, at as int) == Ok::<Seq<InstrumentView>, WsbkError>(
                    instrument_views(out@),
                ),
                Err(e) => parsed_lins(data@, at as int) == Err::<Seq<InstrumentView>, WsbkError>(e),
            },
    {
        let chunks: Vec<ChunkHeader> = match read_children(data, at) {
            Ok(chunks) => chunks,
            Err(_) => {
                return Err(WsbkError::Io);
            },
        };
        let ghost offsets = children_at(data@, at as int)->0;
        let ghost none = Seq::<InstrumentView>::empty();
        let mut out: Vec<Instrument> = Vec::new();
        assert(instrument_views(out@) =~= none);
        let mut i: usize = 0;
        while i < chunks.len()
            invariant
                i <= chunks@.len(),
                data@.len() <= isize::MAX,
                none == Seq::<InstrumentView>::empty(),
                are_headers(chunks@, data@, offsets),
                children_at(data@, at as int) == Some(offsets),
                fold_chunks(offsets, i as int, none, instruments_step(data@)) == Ok::<
                    Seq<InstrumentView>,
                    WsbkError,
                >(instrument_views(out@)),
            decreases chunks@.len() - i,
        {
            let chunk: ChunkHeader = chunks[i];
            let ty: [u8; 4] = match read_type(data, chunk.pos) {
                Ok(ty) => ty,
                Err(_) => {
                    proof {
                        lemma_fold_chunks_stays(
                            offsets,
                            i + 1,
                            offsets.len() as int,
                            none,
                            instruments_step(data@),
                        );
                    }
                    return Err(WsbkError::Io);
                },
            };
            if same_id(&ty, &fourcc::INST) {
                match Instrument::parse_inst(data, chunk.pos) {
                    Ok(item) => {
                        let ghost before = instrument_views(out@);
                        out.push(item);
                        assert(instrument_views(out@) =~= before.push(item@));
                    },
                    Err(e) => {
                        proof {
                            lemma_fold_chunks_stays(
                                offsets,
                                i + 1,
                                offsets.len() as int,
                                none,
                                instruments_step(data@),
                            );
                        }
                        return Err(e);
                    },
                }
            }
            i += 1;
        }
        Ok(out)
    }

}

impl Preset {
    proof fn lemma_blank(x: Preset)
        requires
            x.name@ == Seq::<char>::empty(),
            x.program_no == 0,
            x.bank_msb == 0,
            x.bank_lsb == 0,
            x.type_flag == PresetType::Melodic,
            x.regions@.len() == 0,
        ensures
            x@ == blank_preset(),
    {
        assert(x@.regions =~= Seq::<RegionView>::empty());
    }

    /// Takes one chunk into a preset.
    pub fn add_chunk(data: &[u8], chunk: &ChunkHeader, preset: Preset) -> (res: Result<
        Preset,
        WsbkError,
    >)
        requires
            data@.len() <= isize::MAX,
            is_header(*chunk, data@, chunk.pos as int),
        ensures
            match res {
                Ok(out) => preset_with_chunk(data@, preset@, chunk.pos as int) == Ok::<
                    PresetView,
                    WsbkError,
                >(out@),
                Err(e) => preset_with_chunk(data@, preset@, chunk.pos as int) == Err::<
                    PresetView,
                    WsbkError,
                >(e),
            },
    {
        let mut out = preset;
        if same_id(&chunk.id, &fourcc::NAME) {
            let text = match read_text(data, chunk) {
                Ok(text) => text,
                Err(e) => {
                    return Err(e);
                },
            };
            out.name.push_str(text.as_str());
            Ok(out)
        } else if same_id(&chunk.id, &fourcc::PRSH) {
            if chunk.len < Self::PRSH_LEN {
                return Err(WsbkError::InvalidPresetHeaderLength);
            }
            let contents = match chunk_contents(data, chunk.pos) {
                Some(contents) => contents,
                None => {
                    return Err(WsbkError::Io);
                },
            };
            let c: &[u8] = contents.as_slice();
            let type_flag = match PresetType::from_byte(c[4]) {
                Ok(t) => t,
                Err(e) => {
                    return Err(e);
                },
            };
            out.program_no = read_u16(c, 0);
            out.bank_msb = c[2];
            out.bank_lsb = c[3];
            out.type_flag = type_flag;
            Ok(out)
        } else if same_id(&chunk.id, &LIST_ID) {
            let mut more = match read_list_regions(data, chunk) {
                Ok(more) => more,
                Err(e) => {
                    return Err(e);
                },
            };
            let ghost before = region_views(out.regions@);
            let ghost added = region_views(more@);
            out.regions.append(&mut more);
            assert(region_views(out.regions@) =~= before + added);
            Ok(out)
        } else {
            Ok(out)
        }
    }

    /// Reads the preset of a `prst` list.
    pub fn parse_prst(data: &[u8], at: u64) -> (res: Result<Preset, WsbkError>)
        requires
            data@.len() <= isize::MAX,
        ensures
            match res {
                Ok(out) => parsed_prst(data@, at as int) == Ok::<PresetView, WsbkError>(out@),
                Err(e) => parsed_prst(data@, at as int) == Err::<PresetView, WsbkError>(e),
            },
    {
        let chunks: Vec<ChunkHeader> = match read_children(data, at) {
            Ok(chunks) => chunks,
            Err(_) => {
                return Err(WsbkError::Io);
            },
        };
        let ghost offsets = children_at(data@, at as int)->0;
        let ghost blank = blank_preset();
        let mut out: Preset = Preset {
            name: String::new(),
            program_no: 0,
            bank_msb: 0,
            bank_lsb: 0,
            type_flag: PresetType::Melodic,
            regions: Vec::new(),
        };
        assert(out@ == blank) by {
            Preset::lemma_blank(out);
        }
        let mut i: usize = 0;
        while i < chunks.len()
            invariant
                i <= chunks@.len(),
                data@.len() <= isize::MAX,
                blank == blank_preset(),
                are_headers(chunks@, data@, offsets),
                children_at(data@, at as int) == Some(offsets),
                fold_chunks(offsets, i as int, blank, preset_step(data@)) == Ok::<
                    PresetView,
                    WsbkError,
                >(out@),
            decreases chunks@.len() - i,
        {
            let chunk: ChunkHeader = chunks[i];
            out = match Self::add_chunk(data, &chunk, out) {
                Ok(next) => next,
                Err(e) => {
                    proof {
                        lemma_fold_chunks_stays(
                            offsets,
                            i + 1,
                            offsets.len() as int,
                            blank,
                            preset_step(data@),
                        );
                    }
                    return Err(e);
                },
            };
            i += 1;
        }
        Ok(out)
    }


    /// Reads the presets of an `lprs` list.
    pub fn parse_lprs(data: &[u8], at: u64) -> (res: Result<Vec<Preset>, WsbkError>)
        requires
            data@.len() <= isize::MAX,
        ensures
            match res {
                Ok(out) => parsed_lprs(data@, at as int) == Ok::<Seq<PresetView>, WsbkError>(
                    preset_views(out@),
                ),
                Err(e) => parsed_lprs(data@, at as int) == Err::<Seq<PresetView>, WsbkError>(e),
            },
    {
        let chunks: Vec<ChunkHeader> = match read_children(data, at) {
            Ok(chunks) => chunks,
            Err(_) => {
                return Err(WsbkError::Io);
            },
        };
        let ghost offsets = children_at(data@, at as int)->0;
        let ghost none = Seq::<PresetView>::empty();
        let mut out: Vec<Preset> = Vec::new();
        assert(preset_views(out@) =~= none);
        let mut i: usize = 0;
        while i < chunks.len()
            invariant
                i <= chunks@.len(),
                data@.len() <= isize::MAX,
                none == Seq::<PresetView>::empty(),
                are_headers(chunks@, data@, offsets),
                children_at(data@, at as int) == Some(offsets),
                fold_chunks(offsets, i as int, none, presets_step(data@)) == Ok::<
                    Seq<PresetView>,
                    WsbkError,
                >(preset_views(out@)),
            decreases chunks@.len() - i,
        {
            let chunk: ChunkHeader = chunks[i];
            let ty: [u8; 4] = match read_type(data, chunk.pos) {
                Ok(ty) => ty,
                Err(_) => {
                    proof {
                        lemma_fold_chunks_stays(
                            offsets,
                            i + 1,
                            offsets.len() as int,
                            none,
                            presets_step(data@),
                        );
                    }
                    return Err(WsbkError::Io);
                },
            };
            if same_id(&ty, &fourcc::PRST) {
                match Preset::parse_prst(data, chunk.pos) {
                    Ok(item) => {
                        let ghost before = preset_views(out@);
                        out.push(item);
                        assert(preset_views(out@) =~= before.push(item@));
                    },
                    Err(e) => {
                        proof {
                            lemma_fold_chunks_stays(
                                offsets,
                                i + 1,
                                offsets.len() as int,
                                none,
                                presets_step(data@),
                            );
                        }
                        return Err(e);
                    },
                }
            }
            i += 1;
        }
        Ok(out)
    }

}

impl WSBK {
    /// Takes one list into a bank.
    pub fn add_list(data: &[u8], list: &ChunkHeader, bank: WSBK) -> (res: Result<WSBK, WsbkError>)
        requires
            data@.len() <= isize::MAX,
            is_header(*list, data@, list.pos as int),
        ensures
            match res {
                Ok(out) => bank_with_list(data@, bank@, list.pos as int) == Ok::<
                    WSBKView,
                    WsbkError,
                >(out@),
                Err(e) => bank_with_list(data@, bank@, list.pos as int) == Err::<
                    WSBKView,
                    WsbkError,
                >(e),
            },
    {
        let mut out = bank;
        let ty: [u8; 4] = match read_type(data, list.pos) {
            Ok(ty) => ty,
            Err(_) => {
                return Err(WsbkError::Io);
            },
        };
        if same_id(&ty, &fourcc::SMLS) {
            let mut more = match Sample::parse_smls(data, list.pos) {
                Ok(more) => more,
                Err(e) => {
                    return Err(e);
                },
            };
            let ghost before = sample_views(out.samples@);
            let ghost added = sample_views(more@);
            out.samples.append(&mut more);
            assert(sample_views(out.samples@) =~= before + added);
            Ok(out)
        } else if same_id(&ty, &fourcc::LINS) {
            let mut more = match Instrument::parse_lins(data, list.pos) {
                Ok(more) => more,
                Err(e) => {
                    return Err(e);
                },
            };
            let ghost before = instrument_views(out.instruments@);
            let ghost added = instrument_views(more@);
            out.instruments.append(&mut more);
            assert(instrument_views(out.instruments@) =~= before + added);
            Ok(out)
        } else if same_id(&ty, &fourcc::LPRS) {
            let mut more = match Preset::parse_lprs(data, list.pos) {
                Ok(more) => more,
                Err(e) => {
                    return Err(e);
                },
            };
            let ghost before = preset_views(out.presets@);
            let ghost added = preset_views(more@);
            out.presets.append(&mut more);
            assert(preset_views(out.presets@) =~= before + added);
            Ok(out)
        } else {
            Ok(out)
        }
    }

    /// Reads a bank from the bytes of its container.
    pub fn read(data: &[u8]) -> (res: Result<WSBK, WsbkError>)
        requires
            data@.len() <= isize::MAX,
        ensures
            match res {
                Ok(out) => parsed_bank(data@) == Ok::<WSBKView, WsbkError>(out@),
                Err(e) => parsed_bank(data@) == Err::<WSBKView, WsbkError>(e),
            },
    {
        let ty: [u8; 4] = match read_type(data, 0) {
            Ok(ty) => ty,
            Err(_) => {
                return Err(WsbkError::Io);
            },
        };
        if !same_id(&ty, &fourcc::WSBK) {
            return Err(WsbkError::InvalidRiffType);
        }
        let lists: Vec<ChunkHeader> = match read_children(data, 0) {
            Ok(lists) => lists,
            Err(_) => {
                return Err(WsbkError::Io);
            },
        };
        let ghost offsets = children_at(data@, 0)->0;
        let ghost blank = blank_bank();
        let mut out = WSBK::new();
        assert(out@ == blank) by {
            assert(out@.samples =~= blank.samples);
            assert(out@.instruments =~= blank.instruments);
            assert(out@.presets =~= blank.presets);
        }
        let mut i: usize = 0;
        while i < lists.len()
            invariant
                i <= lists@.len(),
                data@.len() <= isize::MAX,
                blank == blank_bank(),
                type_at(data@, 0) == Some(fourcc::WSBK@),
                are_headers(lists@, data@, offsets),
                children_at(data@, 0) == Some(offsets),
                fold_chunks(offsets, i as int, blank, bank_step(data@)) == Ok::<
                    WSBKView,
                    WsbkError,
                >(out@),
            decreases lists@.len() - i,
        {
            let list: ChunkHeader = lists[i];
            out = match Self::add_list(data, &list, out) {
                Ok(next) => next,
                Err(e) => {
                    proof {
                        lemma_fold_chunks_stays(
                            offsets,
                            i + 1,
                            offsets.len() as int,
                            blank,
                            bank_step(data@),
                        );
                    }
                    return Err(e);
                },
            };
            i += 1;
        }
        Ok(out)
    }
}

} // verus!
