//! The flat tables of a SoundFont bank: sample headers, generators,
//! modulators and bags, each a run of records of one length.

use crate::soundbank::bytes::{
    copy_range,
    le_u16,
    le_u32,
    read_i16,
    read_u16,
    read_u32,
    signed16,
    signed8,
    to_signed8,
};
use crate::soundbank::sf2::error::{SF2Error, SF2ErrorKind};
use crate::soundbank::sf2::structure::{
    SF2Bag,
    SF2Generator,
    SF2GeneratorAmount,
    SF2Modulator,
    SF2SampleHeader,
};
use crate::soundbank::text::text_of;
use vstd::prelude::*;
use vstd::utf8::{decode_utf8, valid_utf8};

verus! {

/// The length of a name field.
pub const NAME_LEN: usize = 20;

/// The first place in `from..to` at which `s` holds a zero byte, or `to`
/// where it holds none there.
pub open spec fn first_zero(s: Seq<u8>, from: int, to: int) -> int
    decreases to - from,
{
    if from >= to {
        to
    } else if s[from] == 0 {
        from
    } else {
        first_zero(s, from + 1, to)
    }
}

/// The bytes of the name in the field of twenty bytes at `at`: those before
/// the first zero byte; the first byte alone where the field holds no zero
/// byte; none where the field starts with one.
pub open spec fn name_bytes(s: Seq<u8>, at: int) -> Option<Seq<u8>> {
    let z = first_zero(s, at, at + 20);
    if z == at {
        None
    } else if z == at + 20 {
        Some(s.subrange(at, at + 1))
    } else {
        Some(s.subrange(at, z))
    }
}

/// Why the name in the field at `at` is refused, if it is.
pub open spec fn name_error(s: Seq<u8>, at: int) -> Option<SF2ErrorKind> {
    match name_bytes(s, at) {
        None => Some(SF2ErrorKind::EmptyName),
        Some(bytes) => if valid_utf8(bytes) {
            None
        } else {
            Some(SF2ErrorKind::InvalidUtf8)
        },
    }
}

/// The name in the field at `at`, where it is not refused.
pub open spec fn name_text(s: Seq<u8>, at: int) -> Seq<char> {
    decode_utf8(name_bytes(s, at)->0)
}

/// The first zero byte lies inside the field or at its end, and no zero
/// byte lies before it.
pub proof fn lemma_first_zero_bounds(s: Seq<u8>, from: int, to: int)
    requires
        from <= to,
    ensures
        from <= first_zero(s, from, to) <= to,
        first_zero(s, from, to) < to ==> s[first_zero(s, from, to)] == 0,
        forall|k: int| from <= k < first_zero(s, from, to) ==> s[k] != 0,
    decreases to - from,
{
    if from < to && s[from] != 0 {
        lemma_first_zero_bounds(s, from + 1, to);
    }
}

/// A place with a zero byte and none before it is the first zero byte.
proof fn lemma_first_zero_found(s: Seq<u8>, from: int, to: int, z: int)
    requires
        from <= z <= to,
        forall|k: int| from <= k < z ==> s[k] != 0,
        z < to ==> s[z] == 0,
    ensures
        first_zero(s, from, to) == z,
    decreases to - from,
{
    if from < z {
        lemma_first_zero_found(s, from + 1, to, z);
    }
}

/// Reads the name in the field of twenty bytes at `at`.
pub fn read_name(data: &[u8], at: usize) -> (res: Result<String, SF2Error>)
    requires
        at + 20 <= data.len(),
    ensures
        match res {
            Ok(name) => name_error(data@, at as int) is None && name@ == name_text(
                data@,
                at as int,
            ),
            Err(e) => name_error(data@, at as int) == Some(e.kind()),
        },
{
    let mut z: usize = at;
    while z < at + NAME_LEN && data[z] != 0
        invariant
            at <= z <= at + 20 <= data.len(),
            forall|k: int| at <= k < z ==> data@[k] != 0,
        decreases at + 20 - z,
    {
        z += 1;
    }
    proof {
        lemma_first_zero_found(data@, at as int, at + 20, z as int);
    }
    if z == at {
        return Err(SF2Error::of_kind(SF2ErrorKind::EmptyName));
    }
    let end: usize = if z == at + NAME_LEN {
        at + 1
    } else {
        z
    };
    match text_of(copy_range(data, at, end)) {
        Some(name) => Ok(name),
        None => Err(SF2Error::of_kind(SF2ErrorKind::InvalidUtf8)),
    }
}

/// Whether `h` is the sample header that record `ii` of `shdr` holds.
pub open spec fn is_sample_header(h: SF2SampleHeader, shdr: Seq<u8>, ii: int) -> bool {
    let at = ii * 46;
    &&& h.index == ii
    &&& h.name@ == name_text(shdr, at)
    &&& h.smpl_start == le_u32(shdr, at + 20)
    &&& h.smpl_end == le_u32(shdr, at + 24)
    &&& h.loop_start == le_u32(shdr, at + 28)
    &&& h.loop_end == le_u32(shdr, at + 32)
    &&& h.sample_rate == le_u32(shdr, at + 36)
    &&& h.base_key == shdr[at + 40]
    &&& h.correction == signed8(shdr[at + 41] as int)
    &&& h.linked_sample_index == le_u16(shdr, at + 42)
    &&& h.sample_type == le_u16(shdr, at + 44)
}

/// The first reason for which one of the first `count` names of a table is
/// refused, the records being `record` bytes long with the name in front.
pub open spec fn names_error(s: Seq<u8>, record: int, count: int) -> Option<SF2ErrorKind>
    decreases count,
{
    if count <= 0 {
        None
    } else {
        match names_error(s, record, count - 1) {
            Some(e) => Some(e),
            None => name_error(s, (count - 1) * record),
        }
    }
}

/// Reads the sample headers: one for each whole record of 46 bytes. It
/// fails on the first name that is refused.
pub fn parse_sample_headers(shdr: &[u8]) -> (res: Result<Vec<SF2SampleHeader>, SF2Error>)
    ensures
        match res {
            Ok(headers) => {
                &&& names_error(shdr@, 46, shdr@.len() as int / 46) is None
                &&& headers@.len() == shdr@.len() / 46
                &&& forall|i: int|
                    0 <= i < headers@.len() ==> is_sample_header(#[trigger] headers@[i], shdr@, i)
            },
            Err(e) => names_error(shdr@, 46, shdr@.len() as int / 46) == Some(e.kind()),
        },
{
    let count: usize = shdr.len() / 46;
    let mut headers: Vec<SF2SampleHeader> = Vec::new();
    let mut ii: usize = 0;
    while ii < count
        invariant
            ii <= count,
            count == shdr@.len() / 46,
            shdr@.len() <= usize::MAX,
            names_error(shdr@, 46, ii as int) is None,
            headers@.len() == ii,
            forall|i: int| 0 <= i < ii ==> is_sample_header(#[trigger] headers@[i], shdr@, i),
        decreases count - ii,
    {
        let i: usize = ii * 46;
        let name = match read_name(shdr, i) {
            Ok(name) => name,
            Err(e) => {
                proof {
                    lemma_names_error_stays(shdr@, 46, ii + 1, count as int);
                }
                return Err(e);
            },
        };
        let header = SF2SampleHeader {
            index: ii,
            name,
            smpl_start: read_u32(shdr, i + 20),
            smpl_end: read_u32(shdr, i + 24),
            loop_start: read_u32(shdr, i + 28),
            loop_end: read_u32(shdr, i + 32),
            sample_rate: read_u32(shdr, i + 36),
            base_key: shdr[i + 40],
            correction: to_signed8(shdr[i + 41]),
            linked_sample_index: read_u16(shdr, i + 42),
            sample_type: read_u16(shdr, i + 44),
        };
        headers.push(header);
        ii += 1;
    }
    Ok(headers)
}

/// Once a name is refused, the same reason stands for every longer run.
pub proof fn lemma_names_error_stays(s: Seq<u8>, record: int, count: int, more: int)
    requires
        count <= more,
        names_error(s, record, count) is Some,
    ensures
        names_error(s, record, more) == names_error(s, record, count),
    decreases more - count,
{
    if count < more {
        lemma_names_error_stays(s, record, count, more - 1);
    }
}

/// The generator that record `ii` of `igen` holds.
pub open spec fn generator_at(igen: Seq<u8>, ii: int) -> SF2Generator {
    SF2Generator {
        operator: le_u16(igen, ii * 4) as u16,
        amount: SF2GeneratorAmount::from_value(le_u16(igen, ii * 4 + 2) as u16),
    }
}

/// The generators of `igen`: one for each whole record of 4 bytes.
pub open spec fn generators_of(igen: Seq<u8>) -> Seq<SF2Generator> {
    Seq::new((igen.len() / 4) as nat, |ii: int| generator_at(igen, ii))
}

/// Reads the generators of `igen`.
pub fn parse_generators(igen: &[u8]) -> (res: Vec<SF2Generator>)
    ensures
        res@ == generators_of(igen@),
{
    let count: usize = igen.len() / 4;
    let mut gens: Vec<SF2Generator> = Vec::new();
    let mut ii: usize = 0;
    while ii < count
        invariant
            ii <= count,
            count == igen@.len() / 4,
            igen@.len() <= usize::MAX,
            gens@.len() == ii,
            forall|i: int| 0 <= i < ii ==> #[trigger] gens@[i] == generator_at(igen@, i),
        decreases count - ii,
    {
        let i: usize = ii * 4;
        let amount = SF2GeneratorAmount::new([igen[i + 2], igen[i + 3]]);
        gens.push(SF2Generator { operator: read_u16(igen, i), amount });
        ii += 1;
    }
    assert(gens@ =~= generators_of(igen@));
    gens
}

/// The modulator that record `ii` of `imod` holds.
pub open spec fn modulator_at(imod: Seq<u8>, ii: int) -> SF2Modulator {
    let at = ii * 10;
    SF2Modulator {
        src_operator: le_u16(imod, at) as u16,
        dest_operator: le_u16(imod, at + 2) as u16,
        mod_amount: signed16(le_u16(imod, at + 4)) as i16,
        amount_src_operator: le_u16(imod, at + 6) as u16,
        mod_trans_operator: le_u16(imod, at + 8) as u16,
    }
}

/// The modulators of `imod`: one for each whole record of 10 bytes.
pub open spec fn modulators_of(imod: Seq<u8>) -> Seq<SF2Modulator> {
    Seq::new((imod.len() / 10) as nat, |ii: int| modulator_at(imod, ii))
}

/// Reads the modulators of `imod`.
pub fn parse_modulators(imod: &[u8]) -> (res: Vec<SF2Modulator>)
    ensures
        res@ == modulators_of(imod@),
{
    let count: usize = imod.len() / 10;
    let mut mods: Vec<SF2Modulator> = Vec::new();
    let mut ii: usize = 0;
    while ii < count
        invariant
            ii <= count,
            count == imod@.len() / 10,
            imod@.len() <= usize::MAX,
            mods@.len() == ii,
            forall|i: int| 0 <= i < ii ==> #[trigger] mods@[i] == modulator_at(imod@, i),
        decreases count - ii,
    {
        let i: usize = ii * 10;
        mods.push(
            SF2Modulator {
                src_operator: read_u16(imod, i),
                dest_operator: read_u16(imod, i + 2),
                mod_amount: read_i16(imod, i + 4),
                amount_src_operator: read_u16(imod, i + 6),
                mod_trans_operator: read_u16(imod, i + 8),
            },
        );
        ii += 1;
    }
    assert(mods@ =~= modulators_of(imod@));
    mods
}

/// The last index of a table of `len` records, cut to 16 bits as a bag
/// stores it.
pub open spec fn last_index(len: int) -> int {
    (len - 1) % 65536
}

/// The bag that record `ii` of `bags` holds, in a table of `count` bags
/// beside `gens_len` generators and `mods_len` modulators. The ranges of the
/// last bag end with the tables. Those of another bag end before the
/// next bag's start, where that lies behind its own; else the bag has none.
pub open spec fn bag_at(bags: Seq<u8>, ii: int, count: int, gens_len: int, mods_len: int) -> SF2Bag {
    let gs = le_u16(bags, ii * 4);
    let ms = le_u16(bags, ii * 4 + 2);
    let next_gs = le_u16(bags, ii * 4 + 4);
    let next_ms = le_u16(bags, ii * 4 + 6);
    let last = ii == count - 1;
    SF2Bag {
        is_generator: last || next_gs > gs,
        generator_start: gs as u16,
        generator_end: (if last {
            last_index(gens_len)
        } else if next_gs > gs {
            next_gs - 1
        } else {
            0
        }) as u16,
        is_modulator: last || next_ms > ms,
        modulator_start: ms as u16,
        modulator_end: (if last {
            last_index(mods_len)
        } else if next_ms > ms {
            next_ms - 1
        } else {
            0
        }) as u16,
    }
}

/// Why a table of bags is refused, if it is: it holds a bag, and the
/// generators or the modulators are none.
pub open spec fn bags_error(bags: Seq<u8>, gens_len: int, mods_len: int) -> Option<SF2ErrorKind> {
    if bags.len() / 4 > 0 && (gens_len == 0 || mods_len == 0) {
        Some(SF2ErrorKind::EmptyTable)
    } else {
        None
    }
}

/// The bags of `bags`: one for each whole record of 4 bytes.
pub open spec fn bags_of(bags: Seq<u8>, gens_len: int, mods_len: int) -> Seq<SF2Bag> {
    Seq::new(
        (bags.len() / 4) as nat,
        |ii: int| bag_at(bags, ii, bags.len() as int / 4, gens_len, mods_len),
    )
}

/// Reads the bags of `bags`, beside tables of `gens_len` generators and
/// `mods_len` modulators.
pub fn parse_bags(bags: &[u8], gens_len: usize, mods_len: usize) -> (res: Result<
    Vec<SF2Bag>,
    SF2Error,
>)
    ensures
        match res {
            Ok(out) => bags_error(bags@, gens_len as int, mods_len as int) is None && out@
                == bags_of(bags@, gens_len as int, mods_len as int),
            Err(e) => bags_error(bags@, gens_len as int, mods_len as int) == Some(e.kind()),
        },
{
    let count: usize = bags.len() / 4;
    if count > 0 && (gens_len == 0 || mods_len == 0) {
        return Err(SF2Error::of_kind(SF2ErrorKind::EmptyTable));
    }
    let mut out: Vec<SF2Bag> = Vec::new();
    let mut ii: usize = 0;
    while ii < count
        invariant
            ii <= count,
            count == bags@.len() / 4,
            bags@.len() <= usize::MAX,
            count > 0 ==> gens_len > 0 && mods_len > 0,
            out@.len() == ii,
            forall|i: int|
                0 <= i < ii ==> #[trigger] out@[i] == bag_at(
                    bags@,
                    i,
                    count as int,
                    gens_len as int,
                    mods_len as int,
                ),
        decreases count - ii,
    {
        let i: usize = ii * 4;
        let gs: u16 = read_u16(bags, i);
        let ms: u16 = read_u16(bags, i + 2);
        let mut bag = SF2Bag {
            is_generator: true,
            generator_start: gs,
            generator_end: 0,
            is_modulator: true,
            modulator_start: ms,
            modulator_end: 0,
        };
        if ii == count - 1 {
            bag.generator_end = ((gens_len - 1) % 65536) as u16;
            bag.modulator_end = ((mods_len - 1) % 65536) as u16;
        } else {
            let next_gs: u16 = read_u16(bags, i + 4);
            let next_ms: u16 = read_u16(bags, i + 6);
            if next_gs > gs {
                bag.generator_end = next_gs - 1;
            } else {
                bag.is_generator = false;
            }
            if next_ms > ms {
                bag.modulator_end = next_ms - 1;
            } else {
                bag.is_modulator = false;
            }
        }
        out.push(bag);
        ii += 1;
    }
    assert(out@ =~= bags_of(bags@, gens_len as int, mods_len as int));
    Ok(out)
}

} // verus!
