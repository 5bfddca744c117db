//! The SoundFont 2 sample bank format.

pub mod error;
pub mod gather;
pub mod gen_ids;
pub mod structure;
pub mod tables;
pub mod zones;

pub use error::{SF2Error, SF2ErrorKind, SF2Table};

use crate::soundbank::bytes::{le_u16, le_u32, read_i16, read_u16, read_u32, signed16};
use crate::soundbank::container::{chunk_contents, contents_at};
use crate::soundbank::wsbk::read::blank_bank;
use crate::soundbank::wsbk::WSBK;
use gather::{gather, gathered, Gathered, GatheredView};
use std::sync::Arc;
use structure::{
    SF2Bag,
    SF2Generator,
    SF2Info,
    SF2Instrument,
    SF2Modulator,
    SF2Preset,
    SF2SampleHeader,
    SF2Zone,
};
use tables::{
    bags_error,
    bags_of,
    generators_of,
    is_sample_header,
    lemma_names_error_stays,
    modulators_of,
    name_text,
    names_error,
    parse_bags,
    parse_generators,
    parse_modulators,
    parse_sample_headers,
    read_name,
};
use vstd::prelude::*;
use zones::{build_owner_zones, is_owner_zones, lemma_owners_error_stays, owners_error};

verus! {

/// A SoundFont bank.
#[derive(Debug)]
pub struct SF2 {
    /// What the bank says of itself.
    pub info: SF2Info,
    /// The headers of all samples.
    pub sample_headers: Vec<SF2SampleHeader>,
    /// The data of all samples, one behind the other.
    pub sample_data: Arc<Vec<i16>>,
    /// The instruments.
    pub instruments: Vec<SF2Instrument>,
    /// The presets, each with its program and bank number.
    pub presets: Vec<SF2Preset>,
}

/// The first bag of each owner: the 16-bit number at `at` in each whole
/// record of `table`.
pub open spec fn starts_of(table: Seq<u8>, record: int, at: int) -> Seq<u16> {
    Seq::new((table.len() / record as nat) as nat, |ii: int| le_u16(table, ii * record + at) as u16)
}

/// The samples that `bytes` hold: one for each whole pair of bytes.
pub open spec fn samples_of(bytes: Seq<u8>) -> Seq<i16> {
    Seq::new((bytes.len() / 2) as nat, |i: int| signed16(le_u16(bytes, 2 * i)) as i16)
}

/// The first of two reasons.
pub open spec fn first_of(a: Option<SF2ErrorKind>, b: Option<SF2ErrorKind>) -> Option<
    SF2ErrorKind,
> {
    if a is Some {
        a
    } else {
        b
    }
}

/// The instrument generators that were gathered.
pub open spec fn inst_gens(g: GatheredView) -> Seq<SF2Generator> {
    generators_of(g.tables[4])
}

/// The instrument modulators that were gathered.
pub open spec fn inst_mods(g: GatheredView) -> Seq<SF2Modulator> {
    modulators_of(g.tables[3])
}

/// The instrument bags that were gathered.
pub open spec fn inst_bags(g: GatheredView) -> Seq<SF2Bag> {
    bags_of(g.tables[2], inst_gens(g).len() as int, inst_mods(g).len() as int)
}

/// The preset generators that were gathered.
pub open spec fn preset_gens(g: GatheredView) -> Seq<SF2Generator> {
    generators_of(g.tables[8])
}

/// The preset modulators that were gathered.
pub open spec fn preset_mods(g: GatheredView) -> Seq<SF2Modulator> {
    modulators_of(g.tables[7])
}

/// The preset bags that were gathered.
pub open spec fn preset_bags(g: GatheredView) -> Seq<SF2Bag> {
    bags_of(g.tables[6], preset_gens(g).len() as int, preset_mods(g).len() as int)
}

/// Why the instruments cannot be built from what was gathered, if they
/// cannot: the bags, then the names, then the zones.
pub open spec fn instruments_error(g: GatheredView) -> Option<SF2ErrorKind> {
    let inst = g.tables[1];
    first_of(
        bags_error(g.tables[2], inst_gens(g).len() as int, inst_mods(g).len() as int),
        first_of(
            names_error(inst, 22, inst.len() as int / 22),
            owners_error(
                starts_of(inst, 22, 20),
                inst.len() as int / 22,
                inst_bags(g),
                inst_gens(g).len() as int,
                inst_mods(g).len() as int,
            ),
        ),
    )
}

/// Why the presets cannot be built from what was gathered, if they cannot:
/// the bags, then the names, then the zones.
pub open spec fn presets_error(g: GatheredView) -> Option<SF2ErrorKind> {
    let phdr = g.tables[5];
    first_of(
        bags_error(g.tables[6], preset_gens(g).len() as int, preset_mods(g).len() as int),
        first_of(
            names_error(phdr, 38, phdr.len() as int / 38),
            owners_error(
                starts_of(phdr, 38, 24),
                phdr.len() as int / 38,
                preset_bags(g),
                preset_gens(g).len() as int,
                preset_mods(g).len() as int,
            ),
        ),
    )
}

/// Why the sample data cannot be read, if they cannot: there is no `smpl`
/// chunk, the container ends inside it, or it holds half a sample.
pub open spec fn samples_error(data: Seq<u8>, g: GatheredView) -> Option<SF2ErrorKind> {
    match g.smpl {
        None => Some(SF2ErrorKind::NoSampleChunk),
        Some(at) => match contents_at(data, at) {
            None => Some(SF2ErrorKind::Io),
            Some(bytes) => if bytes.len() % 2 != 0 {
                Some(SF2ErrorKind::OddSampleData)
            } else {
                None
            },
        },
    }
}

/// Why no bank can be built from what was gathered, if none can: the first
/// reason among the sample headers, the instruments, the presets and the
/// sample data, in this order.
pub open spec fn bank_error(data: Seq<u8>, g: GatheredView) -> Option<SF2ErrorKind> {
    let shdr = g.tables[0];
    first_of(
        names_error(shdr, 46, shdr.len() as int / 46),
        first_of(instruments_error(g), first_of(presets_error(g), samples_error(data, g))),
    )
}

/// Whether `x` is the instrument that record `ii` of `inst` holds, with
/// the zones that the bags give it.
pub open spec fn is_instrument(x: SF2Instrument, g: GatheredView, ii: int) -> bool {
    let inst = g.tables[1];
    &&& x.name@ == name_text(inst, ii * 22)
    &&& x.ibag_index == le_u16(inst, ii * 22 + 20)
    &&& is_owner_zones(
        x.zones@,
        starts_of(inst, 22, 20),
        ii,
        inst_bags(g),
        inst_gens(g),
        inst_mods(g),
        false,
    )
}

/// Whether `x` is the preset that record `ii` of `phdr` holds, apart from
/// its zones.
pub open spec fn is_preset_header(x: SF2Preset, phdr: Seq<u8>, ii: int) -> bool {
    let at = ii * 38;
    &&& x.name@ == name_text(phdr, at)
    &&& x.program_no == le_u16(phdr, at + 20)
    &&& x.bank == le_u16(phdr, at + 22)
    &&& x.pbag_index == le_u16(phdr, at + 24)
    &&& x.library == le_u32(phdr, at + 26)
    &&& x.genre == le_u32(phdr, at + 30)
    &&& x.morph == le_u32(phdr, at + 34)
}

/// Whether `x` is the preset that record `ii` of `phdr` holds, with the
/// zones that the bags give it.
pub open spec fn is_preset(x: SF2Preset, g: GatheredView, ii: int) -> bool {
    let phdr = g.tables[5];
    &&& is_preset_header(x, phdr, ii)
    &&& is_owner_zones(
        x.zones@,
        starts_of(phdr, 38, 24),
        ii,
        preset_bags(g),
        preset_gens(g),
        preset_mods(g),
        true,
    )
}

/// Whether `bank` is the bank that `data` hold, `g` being what the walk
/// through `data` gathers.
pub open spec fn is_bank(bank: SF2, data: Seq<u8>, g: GatheredView) -> bool {
    &&& bank.info.sf_version@ == g.sf_version
    &&& bank.info.rom_version@ == g.rom_version
    &&& bank.info.texts() == g.texts
    &&& bank.sample_headers@.len() == g.tables[0].len() / 46
    &&& forall|i: int|
        0 <= i < bank.sample_headers@.len() ==> is_sample_header(
            #[trigger] bank.sample_headers@[i],
            g.tables[0],
            i,
        )
    &&& bank.instruments@.len() == g.tables[1].len() / 22
    &&& forall|i: int|
        0 <= i < bank.instruments@.len() ==> is_instrument(#[trigger] bank.instruments@[i], g, i)
    &&& bank.presets@.len() == g.tables[5].len() / 38
    &&& forall|i: int| 0 <= i < bank.presets@.len() ==> is_preset(#[trigger] bank.presets@[i], g, i)
    &&& g.smpl is Some
    &&& contents_at(data, g.smpl->0) is Some
    &&& bank.sample_data@ == samples_of(contents_at(data, g.smpl->0)->0)
}

/// Reads the first bag of each owner.
pub fn read_starts(table: &[u8], record: usize, at: usize) -> (res: Vec<u16>)
    requires
        at + 2 <= record,
    ensures
        res@ == starts_of(table@, record as int, at as int),
{
    let count: usize = table.len() / record;
    let mut starts: Vec<u16> = Vec::new();
    let mut ii: usize = 0;
    while ii < count
        invariant
            ii <= count,
            at + 2 <= record,
            count == table@.len() / record as nat,
            table@.len() <= usize::MAX,
            starts@.len() == ii,
            forall|i: int|
                0 <= i < ii ==> #[trigger] starts@[i] == le_u16(table@, i * record + at) as u16,
        decreases count - ii,
    {
        proof {
            lemma_record_inside(table@.len() as int, record as int, ii as int);
        }
        starts.push(read_u16(table, ii * record + at));
        ii += 1;
    }
    assert(starts@ =~= starts_of(table@, record as int, at as int));
    starts
}

/// A whole record lies inside its table.
pub proof fn lemma_record_inside(len: int, record: int, ii: int)
    requires
        record > 0,
        len >= 0,
        0 <= ii < len / record,
    ensures
        0 <= ii * record,
        (ii + 1) * record <= len,
        ii * record + record == (ii + 1) * record,
{
    assert(0 <= ii * record) by (nonlinear_arith)
        requires
            0 <= ii,
            record > 0,
    ;
    assert((ii + 1) * record <= (len / record) * record) by (nonlinear_arith)
        requires
            ii + 1 <= len / record,
            record > 0,
    ;
    assert((len / record) * record <= len) by (nonlinear_arith)
        requires
            record > 0,
            len >= 0,
    ;
    assert(ii * record + record == (ii + 1) * record) by (nonlinear_arith);
}

/// Builds the zones of every owner, in order.
pub fn build_zones(
    starts: &Vec<u16>,
    bags: &Vec<SF2Bag>,
    gens: &Vec<SF2Generator>,
    mods: &Vec<SF2Modulator>,
    preset: bool,
) -> (res: Result<Vec<Vec<Arc<SF2Zone>>>, SF2Error>)
    ensures
        match res {
            Ok(all) => {
                &&& owners_error(
                    starts@,
                    starts@.len() as int,
                    bags@,
                    gens@.len() as int,
                    mods@.len() as int,
                ) is None
                &&& all@.len() == starts@.len()
                &&& forall|i: int|
                    0 <= i < all@.len() ==> is_owner_zones(
                        (#[trigger] all@[i])@,
                        starts@,
                        i,
                        bags@,
                        gens@,
                        mods@,
                        preset,
                    )
            },
            Err(e) => owners_error(
                starts@,
                starts@.len() as int,
                bags@,
                gens@.len() as int,
                mods@.len() as int,
            ) == Some(e.kind()),
        },
{
    let mut all: Vec<Vec<Arc<SF2Zone>>> = Vec::new();
    let mut i: usize = 0;
    while i < starts.len()
        invariant
            i <= starts@.len(),
            all@.len() == i,
            owners_error(starts@, i as int, bags@, gens@.len() as int, mods@.len() as int)
                is None,
            forall|k: int|
                0 <= k < i ==> is_owner_zones(
                    (#[trigger] all@[k])@,
                    starts@,
                    k,
                    bags@,
                    gens@,
                    mods@,
                    preset,
                ),
        decreases starts@.len() - i,
    {
        match build_owner_zones(starts, i, bags, gens, mods, preset) {
            Ok(zones) => {
                all.push(zones);
            },
            Err(e) => {
                proof {
                    lemma_owners_error_stays(
                        starts@,
                        i + 1,
                        starts@.len() as int,
                        bags@,
                        gens@.len() as int,
                        mods@.len() as int,
                    );
                }
                return Err(e);
            },
        }
        i += 1;
    }
    Ok(all)
}

/// Reads the instruments of `inst`, without their zones: one for each whole
/// record of 22 bytes. It fails on the first name that is refused.
pub fn parse_instruments(inst: &[u8]) -> (res: Result<Vec<SF2Instrument>, SF2Error>)
    ensures
        match res {
            Ok(out) => {
                &&& names_error(inst@, 22, inst@.len() as int / 22) is None
                &&& out@.len() == inst@.len() / 22
                &&& forall|i: int|
                    0 <= i < out@.len() ==> {
                        &&& (#[trigger] out@[i]).name@ == name_text(inst@, i * 22)
                        &&& out@[i].ibag_index == le_u16(inst@, i * 22 + 20)
                        &&& out@[i].zones@.len() == 0
                    }
            },
            Err(e) => names_error(inst@, 22, inst@.len() as int / 22) == Some(e.kind()),
        },
{
    let count: usize = inst.len() / 22;
    let mut out: Vec<SF2Instrument> = Vec::new();
    let mut ii: usize = 0;
    while ii < count
        invariant
            ii <= count,
            count == inst@.len() / 22,
            inst@.len() <= usize::MAX,
            names_error(inst@, 22, ii as int) is None,
            out@.len() == ii,
            forall|i: int|
                0 <= i < ii ==> {
                    &&& (#[trigger] out@[i]).name@ == name_text(inst@, i * 22)
                    &&& out@[i].ibag_index == le_u16(inst@, i * 22 + 20)
                    &&& out@[i].zones@.len() == 0
                },
        decreases count - ii,
    {
        let i: usize = ii * 22;
        let name = match read_name(inst, i) {
            Ok(name) => name,
            Err(e) => {
                proof {
                    lemma_names_error_stays(inst@, 22, ii + 1, count as int);
                }
                return Err(e);
            },
        };
        out.push(SF2Instrument { name, ibag_index: read_u16(inst, i + 20), zones: Vec::new() });
        ii += 1;
    }
    Ok(out)
}

/// Reads the presets of `phdr`, without their zones: one for each whole
/// record of 38 bytes. It fails on the first name that is refused.
pub fn parse_presets(phdr: &[u8]) -> (res: Result<Vec<SF2Preset>, SF2Error>)
    ensures
        match res {
            Ok(out) => {
                &&& names_error(phdr@, 38, phdr@.len() as int / 38) is None
                &&& out@.len() == phdr@.len() / 38
                &&& forall|i: int|
                    0 <= i < out@.len() ==> {
                        &&& is_preset_header(#[trigger] out@[i], phdr@, i)
                        &&& out@[i].zones@.len() == 0
                    }
            },
            Err(e) => names_error(phdr@, 38, phdr@.len() as int / 38) == Some(e.kind()),
        },
{
    let count: usize = phdr.len() / 38;
    let mut out: Vec<SF2Preset> = Vec::new();
    let mut ii: usize = 0;
    while ii < count
        invariant
            ii <= count,
            count == phdr@.len() / 38,
            phdr@.len() <= usize::MAX,
            names_error(phdr@, 38, ii as int) is None,
            out@.len() == ii,
            forall|i: int|
                0 <= i < ii ==> {
                    &&& is_preset_header(#[trigger] out@[i], phdr@, i)
                    &&& out@[i].zones@.len() == 0
                },
        decreases count - ii,
    {
        let i: usize = ii * 38;
        let name = match read_name(phdr, i) {
            Ok(name) => name,
            Err(e) => {
                proof {
                    lemma_names_error_stays(phdr@, 38, ii + 1, count as int);
                }
                return Err(e);
            },
        };
        out.push(
            SF2Preset {
                name,
                program_no: read_u16(phdr, i + 20),
                bank: read_u16(phdr, i + 22),
                pbag_index: read_u16(phdr, i + 24),
                zones: Vec::new(),
                library: read_u32(phdr, i + 26),
                genre: read_u32(phdr, i + 30),
                morph: read_u32(phdr, i + 34),
            },
        );
        ii += 1;
    }
    Ok(out)
}

/// Turns bytes into samples: one for each whole pair of bytes, least
/// significant byte first.
pub fn samples_from(bytes: &[u8]) -> (res: Vec<i16>)
    ensures
        res@ == samples_of(bytes@),
{
    let count: usize = bytes.len() / 2;
    let mut out: Vec<i16> = Vec::new();
    let mut i: usize = 0;
    while i < count
        invariant
            i <= count,
            count == bytes@.len() / 2,
            bytes@.len() <= usize::MAX,
            out@.len() == i,
            forall|k: int|
                0 <= k < i ==> #[trigger] out@[k] == signed16(le_u16(bytes@, 2 * k)) as i16,
        decreases count - i,
    {
        out.push(read_i16(bytes, 2 * i));
        i += 1;
    }
    assert(out@ =~= samples_of(bytes@));
    out
}

/// Gives each instrument its zones.
pub fn attach_instrument_zones(
    instruments: Vec<SF2Instrument>,
    all: Vec<Vec<Arc<SF2Zone>>>,
) -> (res: Vec<SF2Instrument>)
    requires
        instruments@.len() == all@.len(),
    ensures
        res@.len() == instruments@.len(),
        forall|i: int|
            0 <= i < res@.len() ==> {
                &&& (#[trigger] res@[i]).name == instruments@[i].name
                &&& res@[i].ibag_index == instruments@[i].ibag_index
                &&& res@[i].zones@ == all@[i]@
            },
{
    let mut out = instruments;
    let mut rest = all;
    let mut i: usize = out.len();
    while i > 0
        invariant
            i <= out@.len(),
            out@.len() == instruments@.len(),
            instruments@.len() == all@.len(),
            rest@ == all@.take(i as int),
            forall|k: int| 0 <= k < i ==> #[trigger] out@[k] == instruments@[k],
            forall|k: int|
                i <= k < out@.len() ==> {
                    &&& (#[trigger] out@[k]).name == instruments@[k].name
                    &&& out@[k].ibag_index == instruments@[k].ibag_index
                    &&& out@[k].zones@ == all@[k]@
                },
        decreases i,
    {
        i -= 1;
        match rest.pop() {
            Some(zones) => {
                out[i].zones = zones;
            },
            None => {},
        }
        assert(rest@ =~= all@.take(i as int));
    }
    out
}

/// Gives each preset its zones.
pub fn attach_preset_zones(presets: Vec<SF2Preset>, all: Vec<Vec<Arc<SF2Zone>>>) -> (res: Vec<
    SF2Preset,
>)
    requires
        presets@.len() == all@.len(),
    ensures
        res@.len() == presets@.len(),
        forall|i: int|
            0 <= i < res@.len() ==> {
                &&& (#[trigger] res@[i]).name == presets@[i].name
                &&& res@[i].program_no == presets@[i].program_no
                &&& res@[i].bank == presets@[i].bank
                &&& res@[i].pbag_index == presets@[i].pbag_index
                &&& res@[i].library == presets@[i].library
                &&& res@[i].genre == presets@[i].genre
                &&& res@[i].morph == presets@[i].morph
                &&& res@[i].zones@ == all@[i]@
            },
{
    let mut out = presets;
    let mut rest = all;
    let mut i: usize = out.len();
    while i > 0
        invariant
            i <= out@.len(),
            out@.len() == presets@.len(),
            presets@.len() == all@.len(),
            rest@ == all@.take(i as int),
            forall|k: int| 0 <= k < i ==> #[trigger] out@[k] == presets@[k],
            forall|k: int|
                i <= k < out@.len() ==> {
                    &&& (#[trigger] out@[k]).name == presets@[k].name
                    &&& out@[k].program_no == presets@[k].program_no
                    &&& out@[k].bank == presets@[k].bank
                    &&& out@[k].pbag_index == presets@[k].pbag_index
                    &&& out@[k].library == presets@[k].library
                    &&& out@[k].genre == presets@[k].genre
                    &&& out@[k].morph == presets@[k].morph
                    &&& out@[k].zones@ == all@[k]@
                },
        decreases i,
    {
        i -= 1;
        match rest.pop() {
            Some(zones) => {
                out[i].zones = zones;
            },
            None => {},
        }
        assert(rest@ =~= all@.take(i as int));
    }
    out
}

/// Builds the instruments from what was gathered.
pub fn build_instruments(all: &Gathered) -> (res: Result<Vec<SF2Instrument>, SF2Error>)
    requires
        all.wf(),
    ensures
        match res {
            Ok(out) => {
                &&& instruments_error(all@) is None
                &&& out@.len() == all@.tables[1].len() / 22
                &&& forall|i: int| 0 <= i < out@.len() ==> is_instrument(#[trigger] out@[i], all@, i)
            },
            Err(e) => instruments_error(all@) == Some(e.kind()),
        },
{
    let gens = parse_generators(all.tables[4].as_slice());
    let mods = parse_modulators(all.tables[3].as_slice());
    let bags = match parse_bags(all.tables[2].as_slice(), gens.len(), mods.len()) {
        Ok(bags) => bags,
        Err(e) => {
            return Err(e);
        },
    };
    let headers = match parse_instruments(all.tables[1].as_slice()) {
        Ok(headers) => headers,
        Err(e) => {
            return Err(e);
        },
    };
    let starts = read_starts(all.tables[1].as_slice(), 22, 20);
    let zones = match build_zones(&starts, &bags, &gens, &mods, false) {
        Ok(zones) => zones,
        Err(e) => {
            return Err(e);
        },
    };
    Ok(attach_instrument_zones(headers, zones))
}

/// Builds the presets from what was gathered.
pub fn build_presets(all: &Gathered) -> (res: Result<Vec<SF2Preset>, SF2Error>)
    requires
        all.wf(),
    ensures
        match res {
            Ok(out) => {
                &&& presets_error(all@) is None
                &&& out@.len() == all@.tables[5].len() / 38
                &&& forall|i: int| 0 <= i < out@.len() ==> is_preset(#[trigger] out@[i], all@, i)
            },
            Err(e) => presets_error(all@) == Some(e.kind()),
        },
{
    let gens = parse_generators(all.tables[8].as_slice());
    let mods = parse_modulators(all.tables[7].as_slice());
    let bags = match parse_bags(all.tables[6].as_slice(), gens.len(), mods.len()) {
        Ok(bags) => bags,
        Err(e) => {
            return Err(e);
        },
    };
    let headers = match parse_presets(all.tables[5].as_slice()) {
        Ok(headers) => headers,
        Err(e) => {
            return Err(e);
        },
    };
    let starts = read_starts(all.tables[5].as_slice(), 38, 24);
    let zones = match build_zones(&starts, &bags, &gens, &mods, true) {
        Ok(zones) => zones,
        Err(e) => {
            return Err(e);
        },
    };
    Ok(attach_preset_zones(headers, zones))
}

/// Reads the sample data that the walk has found.
pub fn read_samples(data: &[u8], all: &Gathered) -> (res: Result<Vec<i16>, SF2Error>)
    ensures
        match res {
            Ok(samples) => {
                &&& samples_error(data@, all@) is None
                &&& samples@ == samples_of(contents_at(data@, all@.smpl->0)->0)
            },
            Err(e) => samples_error(data@, all@) == Some(e.kind()),
        },
{
    let at: u64 = match all.smpl {
        Some(at) => at,
        None => {
            return Err(SF2Error::of_kind(SF2ErrorKind::NoSampleChunk));
        },
    };
    let bytes = match chunk_contents(data, at) {
        Some(bytes) => bytes,
        None => {
            return Err(SF2Error::of_kind(SF2ErrorKind::Io));
        },
    };
    if bytes.len() % 2 != 0 {
        return Err(SF2Error::of_kind(SF2ErrorKind::OddSampleData));
    }
    Ok(samples_from(bytes.as_slice()))
}

impl SF2 {
    /// The bank in the synthesizer's own format. No sample, instrument or
    /// preset is carried over yet: the bank is empty.
    pub fn to_wsbk(&self) -> (res: WSBK)
        ensures
            res@ == blank_bank(),
    {
        let res = WSBK::new();
        assert(res@.samples =~= blank_bank().samples);
        assert(res@.instruments =~= blank_bank().instruments);
        assert(res@.presets =~= blank_bank().presets);
        res
    }

    /// Reads a bank from the bytes of a SoundFont file.
    ///
    /// The walk through the container comes first, and its first failure is
    /// the error. Then come the sample headers, the instruments, the
    /// presets and the sample data, and again the first failure is the
    /// error.
    pub fn new(data: &[u8]) -> (res: Result<Self, SF2Error>)
        requires
            data@.len() <= isize::MAX,
        ensures
            match res {
                Ok(bank) => {
                    &&& gathered(data@) is Ok
                    &&& bank_error(data@, gathered(data@)->Ok_0) is None
                    &&& is_bank(bank, data@, gathered(data@)->Ok_0)
                },
                Err(e) => match gathered(data@) {
                    Err(k) => e.kind() == k,
                    Ok(g) => bank_error(data@, g) == Some(e.kind()),
                },
            },
    {
        let all = match gather(data) {
            Ok(all) => all,
            Err(e) => {
                return Err(e);
            },
        };
        let sample_headers = match parse_sample_headers(all.tables[0].as_slice()) {
            Ok(headers) => headers,
            Err(e) => {
                return Err(e);
            },
        };
        let instruments = match build_instruments(&all) {
            Ok(instruments) => instruments,
            Err(e) => {
                return Err(e);
            },
        };
        let presets = match build_presets(&all) {
            Ok(presets) => presets,
            Err(e) => {
                return Err(e);
            },
        };
        let samples = match read_samples(data, &all) {
            Ok(samples) => samples,
            Err(e) => {
                return Err(e);
            },
        };
        Ok(
            Self {
                info: all.info,
                sample_headers,
                sample_data: Arc::new(samples),
                instruments,
                presets,
            },
        )
    }
}

} // verus!
