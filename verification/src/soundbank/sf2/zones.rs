//! How bags become zones, and which zones belong to an instrument or a
//! preset.

use crate::soundbank::sf2::error::{SF2Error, SF2ErrorKind};
use crate::soundbank::sf2::gen_ids;
use crate::soundbank::sf2::structure::{
    lookup_after,
    SF2Bag,
    SF2Generator,
    SF2GeneratorAmount,
    SF2Modulator,
    SF2Zone,
};
use std::sync::Arc;
use vstd::prelude::*;

verus! {

/// The generators of a bag: those of its range, both ends included, and none
/// where the bag has no generators.
pub open spec fn bag_generators(bag: SF2Bag, gens: Seq<SF2Generator>) -> Seq<SF2Generator> {
    if bag.is_generator && bag.generator_start <= bag.generator_end {
        gens.subrange(bag.generator_start as int, bag.generator_end + 1)
    } else {
        Seq::empty()
    }
}

/// The modulators of a bag: those of its range, both ends included, and none
/// where the bag has no modulators.
pub open spec fn bag_modulators(bag: SF2Bag, mods: Seq<SF2Modulator>) -> Seq<SF2Modulator> {
    if bag.is_modulator && bag.modulator_start <= bag.modulator_end {
        mods.subrange(bag.modulator_start as int, bag.modulator_end + 1)
    } else {
        Seq::empty()
    }
}

/// Whether both ranges of a bag end inside their tables.
pub open spec fn bag_in_range(bag: SF2Bag, gens_len: int, mods_len: int) -> bool {
    &&& bag.is_generator && bag.generator_start <= bag.generator_end ==> bag.generator_end
        < gens_len
    &&& bag.is_modulator && bag.modulator_start <= bag.modulator_end ==> bag.modulator_end
        < mods_len
}

/// The operator whose amount names the target of a zone: the sample of an
/// instrument's zone, the instrument of a preset's zone.
pub open spec fn target_operator(preset: bool) -> u16 {
    if preset {
        gen_ids::INSTRUMENT
    } else {
        gen_ids::SAMPLE_ID
    }
}

/// The amount of the last generator with operator `op`, as an index.
pub open spec fn last_target(gens: Seq<SF2Generator>, op: u16) -> Option<usize>
    decreases gens.len(),
{
    if gens.len() == 0 {
        None
    } else if gens.last().operator == op {
        Some(gens.last().amount.value() as usize)
    } else {
        last_target(gens.drop_last(), op)
    }
}

/// Whether `zone` is the zone that `bag` describes: it holds the bag's
/// generators and modulators in order, its lookup table holds those
/// generators, and its target is named by the last generator with the
/// target operator.
pub open spec fn is_zone(
    zone: SF2Zone,
    bag: SF2Bag,
    gens: Seq<SF2Generator>,
    mods: Seq<SF2Modulator>,
    preset: bool,
) -> bool {
    let own = bag_generators(bag, gens);
    &&& zone.generators@ == own
    &&& zone.modulators@ == bag_modulators(bag, mods)
    &&& zone.generators_lookup@ == lookup_after(Map::empty(), own)
    &&& zone.target_sample_index == (if preset {
        None
    } else {
        last_target(own, gen_ids::SAMPLE_ID)
    })
    &&& zone.target_instrument_index == (if preset {
        last_target(own, gen_ids::INSTRUMENT)
    } else {
        None
    })
}

/// Builds the zone of one bag. It fails where a range of the bag ends
/// behind its table.
pub fn build_zone(
    bag: &SF2Bag,
    gens: &Vec<SF2Generator>,
    mods: &Vec<SF2Modulator>,
    preset: bool,
) -> (res: Result<SF2Zone, SF2Error>)
    ensures
        match res {
            Ok(zone) => bag_in_range(*bag, gens@.len() as int, mods@.len() as int) && is_zone(
                zone,
                *bag,
                gens@,
                mods@,
                preset,
            ),
            Err(e) => !bag_in_range(*bag, gens@.len() as int, mods@.len() as int) && e.kind()
                == SF2ErrorKind::IndexOutOfRange,
        },
{
    let has_gens: bool = bag.is_generator && bag.generator_start <= bag.generator_end;
    let has_mods: bool = bag.is_modulator && bag.modulator_start <= bag.modulator_end;
    if has_gens && bag.generator_end as usize >= gens.len() {
        return Err(SF2Error::of_kind(SF2ErrorKind::IndexOutOfRange));
    }
    if has_mods && bag.modulator_end as usize >= mods.len() {
        return Err(SF2Error::of_kind(SF2ErrorKind::IndexOutOfRange));
    }
    let op: u16 = if preset {
        gen_ids::INSTRUMENT
    } else {
        gen_ids::SAMPLE_ID
    };
    let mut zone = SF2Zone::new();
    let mut target: Option<usize> = None;
    if has_gens {
        let first: usize = bag.generator_start as usize;
        let end: usize = bag.generator_end as usize + 1;
        let mut k: usize = first;
        while k < end
            invariant
                first <= k <= end <= gens@.len(),
                zone.generators@ == gens@.subrange(first as int, k as int),
                zone.modulators@.len() == 0,
                zone.generators_lookup@ == Map::<u16, SF2GeneratorAmount>::empty(),
                zone.target_sample_index is None,
                zone.target_instrument_index is None,
                target == last_target(gens@.subrange(first as int, k as int), op),
            decreases end - k,
        {
            let gen: SF2Generator = gens[k];
            zone.generators.push(gen);
            if gen.operator == op {
                target = Some(gen.amount.get_u16() as usize);
            }
            proof {
                let next = gens@.subrange(first as int, k + 1);
                assert(next.drop_last() =~= gens@.subrange(first as int, k as int));
                assert(next.last() == gens@[k as int]);
            }
            k += 1;
        }
        zone.update_generators_lookup();
    }
    if has_mods {
        let first: usize = bag.modulator_start as usize;
        let end: usize = bag.modulator_end as usize + 1;
        let ghost own = zone.generators@;
        let ghost table = zone.generators_lookup@;
        let mut k: usize = first;
        while k < end
            invariant
                first <= k <= end <= mods@.len(),
                zone.generators@ == own,
                zone.generators_lookup@ == table,
                zone.modulators@ == mods@.subrange(first as int, k as int),
                zone.target_sample_index is None,
                zone.target_instrument_index is None,
            decreases end - k,
        {
            zone.modulators.push(mods[k]);
            k += 1;
        }
    }
    if preset {
        zone.target_instrument_index = target;
    } else {
        zone.target_sample_index = target;
    }
    proof {
        assert(zone.generators@ =~= bag_generators(*bag, gens@));
        assert(zone.modulators@ =~= bag_modulators(*bag, mods@));
    }
    Ok(zone)
}

/// The bags of owner `i`, as a first and a last index: from its own start
/// up to the end of the table for the last owner; up to the bag before the
/// next owner's start, where that start lies behind its own; none otherwise.
pub open spec fn owner_bags(starts: Seq<u16>, i: int, bags_len: int) -> Option<(int, int)> {
    if i == starts.len() - 1 {
        Some((starts[i] as int, bags_len - 1))
    } else if starts[i + 1] > starts[i] {
        Some((starts[i] as int, starts[i + 1] - 1))
    } else {
        None
    }
}

/// Whether every bag from `first` to `last` has its ranges inside the
/// tables.
pub open spec fn bags_in_range(
    bags: Seq<SF2Bag>,
    first: int,
    last: int,
    gens_len: int,
    mods_len: int,
) -> bool {
    forall|j: int| first <= j <= last ==> bag_in_range(#[trigger] bags[j], gens_len, mods_len)
}

/// Why the zones of owner `i` cannot be built, if they cannot: the owner is
/// the last one and there is no bag at all; or one of its bags lies behind
/// the table, or has a range that ends behind its table.
pub open spec fn owner_error(
    starts: Seq<u16>,
    i: int,
    bags: Seq<SF2Bag>,
    gens_len: int,
    mods_len: int,
) -> Option<SF2ErrorKind> {
    if i == starts.len() - 1 && bags.len() == 0 {
        Some(SF2ErrorKind::EmptyTable)
    } else {
        match owner_bags(starts, i, bags.len() as int) {
            None => None,
            Some((first, last)) => if first > last {
                None
            } else if last >= bags.len() || !bags_in_range(bags, first, last, gens_len, mods_len) {
                Some(SF2ErrorKind::IndexOutOfRange)
            } else {
                None
            },
        }
    }
}

/// Whether `zones` are the zones of owner `i`: one for each of its bags,
/// in order.
pub open spec fn is_owner_zones(
    zones: Seq<Arc<SF2Zone>>,
    starts: Seq<u16>,
    i: int,
    bags: Seq<SF2Bag>,
    gens: Seq<SF2Generator>,
    mods: Seq<SF2Modulator>,
    preset: bool,
) -> bool {
    match owner_bags(starts, i, bags.len() as int) {
        None => zones.len() == 0,
        Some((first, last)) => if first > last {
            zones.len() == 0
        } else {
            &&& zones.len() == last - first + 1
            &&& forall|k: int|
                0 <= k < zones.len() ==> is_zone(
                    *#[trigger] zones[k],
                    bags[first + k],
                    gens,
                    mods,
                    preset,
                )
        },
    }
}

/// Builds the zones of owner `i`.
pub fn build_owner_zones(
    starts: &Vec<u16>,
    i: usize,
    bags: &Vec<SF2Bag>,
    gens: &Vec<SF2Generator>,
    mods: &Vec<SF2Modulator>,
    preset: bool,
) -> (res: Result<Vec<Arc<SF2Zone>>, SF2Error>)
    requires
        i < starts@.len(),
    ensures
        match res {
            Ok(zones) => {
                &&& owner_error(starts@, i as int, bags@, gens@.len() as int, mods@.len() as int)
                    is None
                &&& is_owner_zones(zones@, starts@, i as int, bags@, gens@, mods@, preset)
            },
            Err(e) => owner_error(
                starts@,
                i as int,
                bags@,
                gens@.len() as int,
                mods@.len() as int,
            ) == Some(e.kind()),
        },
{
    let mut zones: Vec<Arc<SF2Zone>> = Vec::new();
    let first: usize = starts[i] as usize;
    let last: usize;
    if i == starts.len() - 1 {
        if bags.len() == 0 {
            return Err(SF2Error::of_kind(SF2ErrorKind::EmptyTable));
        }
        last = bags.len() - 1;
    } else if starts[i + 1] > starts[i] {
        last = (starts[i + 1] - 1) as usize;
    } else {
        return Ok(zones);
    }
    if first > last {
        return Ok(zones);
    }
    if last >= bags.len() {
        return Err(SF2Error::of_kind(SF2ErrorKind::IndexOutOfRange));
    }
    let mut j: usize = first;
    while j <= last
        invariant
            first <= j <= last + 1,
            last < bags@.len(),
            last < usize::MAX,
            i < starts@.len(),
            owner_bags(starts@, i as int, bags@.len() as int) == Some((first as int, last as int)),
            zones@.len() == j - first,
            bags_in_range(bags@, first as int, j - 1, gens@.len() as int, mods@.len() as int),
            forall|k: int|
                0 <= k < zones@.len() ==> is_zone(
                    *#[trigger] zones@[k],
                    bags@[first + k],
                    gens@,
                    mods@,
                    preset,
                ),
        decreases last + 1 - j,
    {
        let zone = match build_zone(&bags[j], gens, mods, preset) {
            Ok(zone) => zone,
            Err(e) => {
                return Err(e);
            },
        };
        zones.push(Arc::new(zone));
        j += 1;
    }
    Ok(zones)
}

/// The first reason for which the zones of one of the first `count` owners
/// cannot be built.
pub open spec fn owners_error(
    starts: Seq<u16>,
    count: int,
    bags: Seq<SF2Bag>,
    gens_len: int,
    mods_len: int,
) -> Option<SF2ErrorKind>
    decreases count,
{
    if count <= 0 {
        None
    } else {
        match owners_error(starts, count - 1, bags, gens_len, mods_len) {
            Some(e) => Some(e),
            None => owner_error(starts, count - 1, bags, gens_len, mods_len),
        }
    }
}

/// Once the zones of an owner cannot be built, the same reason stands for
/// every longer run of owners.
pub proof fn lemma_owners_error_stays(
    starts: Seq<u16>,
    count: int,
    more: int,
    bags: Seq<SF2Bag>,
    gens_len: int,
    mods_len: int,
)
    requires
        count <= more,
        owners_error(starts, count, bags, gens_len, mods_len) is Some,
    ensures
        owners_error(starts, more, bags, gens_len, mods_len) == owners_error(
            starts,
            count,
            bags,
            gens_len,
            mods_len,
        ),
    decreases more - count,
{
    if count < more {
        lemma_owners_error_stays(starts, count, more - 1, bags, gens_len, mods_len);
    }
}

} // verus!
