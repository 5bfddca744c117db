//! The records of a SoundFont bank, once read.

use crate::soundbank::bytes::{signed16, to_signed16, to_unsigned16, unsigned16};
use std::collections::HashMap;
use std::sync::Arc;
use vstd::prelude::*;

verus! {

/// What the bank says of itself.
#[derive(Debug)]
pub struct SF2Info {
    pub sf_version: [u16; 2],
    pub target_sound_engine: String,
    pub bank_name: String,
    pub rom_name: String,
    pub rom_version: [u16; 2],
    pub created_date: String,
    pub engineers: String,
    pub target_hardware: String,
    pub copyright: String,
    pub comments: String,
    pub created_software: String,
}

impl SF2Info {
    /// The nine texts, in the order of the fields.
    pub open spec fn texts(&self) -> Seq<Seq<char>> {
        seq![
            self.target_sound_engine@,
            self.bank_name@,
            self.rom_name@,
            self.created_date@,
            self.engineers@,
            self.target_hardware@,
            self.copyright@,
            self.comments@,
            self.created_software@,
        ]
    }

    /// Whether every text is empty and both versions are `0.0`.
    pub open spec fn is_empty(&self) -> bool {
        &&& self.sf_version@ == seq![0u16, 0u16]
        &&& self.rom_version@ == seq![0u16, 0u16]
        &&& self.texts() == Seq::new(9, |i: int| Seq::<char>::empty())
    }

    /// An empty description: a bank need not fill in any of it.
    pub fn new() -> (res: Self)
        ensures
            res.is_empty(),
    {
        let res = Self {
            sf_version: [0, 0],
            target_sound_engine: String::new(),
            bank_name: String::new(),
            rom_name: String::new(),
            rom_version: [0, 0],
            created_date: String::new(),
            engineers: String::new(),
            target_hardware: String::new(),
            copyright: String::new(),
            comments: String::new(),
            created_software: String::new(),
        };
        assert(res.sf_version@ =~= seq![0u16, 0u16]);
        assert(res.rom_version@ =~= seq![0u16, 0u16]);
        assert(res.texts() =~= Seq::new(9, |i: int| Seq::<char>::empty()));
        res
    }
}

/// The header of one sample.
#[derive(Debug)]
pub struct SF2SampleHeader {
    pub index: usize,
    pub name: String,
    pub smpl_start: u32,
    pub smpl_end: u32,
    pub loop_start: u32,
    pub loop_end: u32,
    pub sample_rate: u32,
    pub base_key: u8,
    pub correction: i8,
    pub linked_sample_index: u16,
    pub sample_type: u16,
}

/// A bag: the generators and modulators of one zone, as two index ranges
/// with both ends included.
#[derive(Clone, Copy, Debug)]
pub struct SF2Bag {
    pub is_generator: bool,
    pub generator_start: u16,
    pub generator_end: u16,
    pub is_modulator: bool,
    pub modulator_start: u16,
    pub modulator_end: u16,
}

#[derive(Clone, Copy, Debug)]
pub struct SF2Modulator {
    pub src_operator: u16,
    pub dest_operator: u16,
    pub mod_amount: i16,
    pub amount_src_operator: u16,
    pub mod_trans_operator: u16,
}

/// The amount of a generator: two bytes, readable as a signed integer, as an
/// unsigned integer or as the two bytes themselves.
#[derive(Clone, Copy, Debug)]
pub struct SF2GeneratorAmount {
    i16_amount: i16,
    u16_amount: u16,
    u8_array_amount: [u8; 2],
}

impl SF2GeneratorAmount {
    /// The amount as an unsigned integer; the other two readings follow
    /// from it.
    pub closed spec fn value(&self) -> u16 {
        self.u16_amount
    }

    /// The amount whose unsigned reading is `v`.
    pub closed spec fn from_value(v: u16) -> Self {
        SF2GeneratorAmount {
            i16_amount: signed16(v as int) as i16,
            u16_amount: v,
            u8_array_amount: [(v % 256) as u8, (v / 256) as u8],
        }
    }

    /// The three readings agree.
    #[verifier::type_invariant]
    pub closed spec fn wf(&self) -> bool {
        *self == Self::from_value(self.u16_amount)
    }

    /// An amount is known by its unsigned reading.
    pub broadcast proof fn lemma_from_value(v: u16)
        ensures
            (#[trigger] Self::from_value(v)).value() == v,
    {
    }

    fn make(v: u16) -> (res: Self)
        ensures
            res == Self::from_value(v),
    {
        Self {
            i16_amount: to_signed16(v),
            u16_amount: v,
            u8_array_amount: [(v % 256) as u8, (v / 256) as u8],
        }
    }

    pub fn new(u8_array_amount: [u8; 2]) -> (res: Self)
        ensures
            res == Self::from_value((u8_array_amount[0] + 256 * u8_array_amount[1]) as u16),
    {
        Self::make(u8_array_amount[0] as u16 + 256 * (u8_array_amount[1] as u16))
    }

    #[inline]
    pub fn get_i16(&self) -> (res: i16)
        ensures
            res == signed16(self.value() as int),
            *self == Self::from_value(self.value()),
    {
        proof {
            use_type_invariant(self);
        }
        self.i16_amount
    }

    #[inline]
    pub fn get_u16(&self) -> (res: u16)
        ensures
            res == self.value(),
            *self == Self::from_value(self.value()),
    {
        proof {
            use_type_invariant(self);
        }
        self.u16_amount
    }

    #[inline]
    pub fn get_u8_array(&self) -> (res: [u8; 2])
        ensures
            res[0] == self.value() % 256,
            res[1] == self.value() / 256,
            *self == Self::from_value(self.value()),
    {
        proof {
            use_type_invariant(self);
        }
        self.u8_array_amount
    }

    pub fn set_i16(&mut self, val: i16)
        ensures
            *final(self) == Self::from_value(unsigned16(val as int) as u16),
    {
        *self = Self::make(to_unsigned16(val));
    }

    pub fn set_u16(&mut self, val: u16)
        ensures
            *final(self) == Self::from_value(val),
    {
        *self = Self::make(val);
    }

    pub fn set_u8_array(&mut self, val: [u8; 2])
        ensures
            *final(self) == Self::from_value((val[0] + 256 * val[1]) as u16),
    {
        *self = Self::make(val[0] as u16 + 256 * (val[1] as u16));
    }
}

#[derive(Clone, Copy, Debug)]
pub struct SF2Generator {
    pub operator: u16,
    pub amount: SF2GeneratorAmount,
}

/// What a lookup table holds once each generator of `gens` has been entered
/// in turn: a later generator replaces an earlier one with the same
/// operator, and what the table held for other operators stays.
pub open spec fn lookup_after(
    lookup: Map<u16, SF2GeneratorAmount>,
    gens: Seq<SF2Generator>,
) -> Map<u16, SF2GeneratorAmount>
    decreases gens.len(),
{
    if gens.len() == 0 {
        lookup
    } else {
        lookup_after(lookup, gens.drop_last()).insert(gens.last().operator, gens.last().amount)
    }
}

/// One zone: its generators and modulators, and the sample or instrument
/// that it points to.
#[derive(Debug)]
pub struct SF2Zone {
    pub modulators: Vec<SF2Modulator>,
    pub generators: Vec<SF2Generator>,
    pub generators_lookup: HashMap<u16, SF2GeneratorAmount>,
    pub target_sample_index: Option<usize>,
    pub target_instrument_index: Option<usize>,
}

impl SF2Zone {
    /// A zone with no generator, no modulator, an empty lookup table and no
    /// target.
    pub open spec fn is_empty(&self) -> bool {
        &&& self.modulators@.len() == 0
        &&& self.generators@.len() == 0
        &&& self.generators_lookup@ == Map::<u16, SF2GeneratorAmount>::empty()
        &&& self.target_sample_index is None
        &&& self.target_instrument_index is None
    }

    pub fn new() -> (res: Self)
        ensures
            res.is_empty(),
    {
        Self {
            modulators: Vec::new(),
            generators: Vec::new(),
            generators_lookup: HashMap::new(),
            target_sample_index: None,
            target_instrument_index: None,
        }
    }

    /// Enters every generator of the zone into the lookup table, in order.
    pub fn update_generators_lookup(&mut self)
        ensures
            final(self).generators_lookup@ == lookup_after(
                old(self).generators_lookup@,
                old(self).generators@,
            ),
            final(self).generators@ == old(self).generators@,
            final(self).modulators@ == old(self).modulators@,
            final(self).target_sample_index == old(self).target_sample_index,
            final(self).target_instrument_index == old(self).target_instrument_index,
    {
        broadcast use vstd::std_specs::hash::group_hash_axioms;

        let n: usize = self.generators.len();
        let mut i: usize = 0;
        while i < n
            invariant
                i <= n,
                n == self.generators@.len(),
                self.generators@ == old(self).generators@,
                self.modulators@ == old(self).modulators@,
                self.target_sample_index == old(self).target_sample_index,
                self.target_instrument_index == old(self).target_instrument_index,
                self.generators_lookup@ == lookup_after(
                    old(self).generators_lookup@,
                    old(self).generators@.take(i as int),
                ),
            decreases n - i,
        {
            let gen: SF2Generator = self.generators[i];
            self.generators_lookup.insert(gen.operator, gen.amount);
            proof {
                let gens = old(self).generators@;
                assert(gens.take(i + 1).drop_last() =~= gens.take(i as int));
                assert(gens.take(i + 1).last() == gens[i as int]);
            }
            i += 1;
        }
        proof {
            assert(old(self).generators@.take(n as int) =~= old(self).generators@);
        }
    }

    /// The amount that the lookup table holds for an operator.
    pub fn get_gen(&self, gen_id: u16) -> (res: Option<SF2GeneratorAmount>)
        ensures
            res == (if self.generators_lookup@.contains_key(gen_id) {
                Some(self.generators_lookup@[gen_id])
            } else {
                None
            }),
    {
        broadcast use vstd::std_specs::hash::group_hash_axioms;

        match self.generators_lookup.get(&gen_id) {
            Some(val) => Some(*val),
            None => None,
        }
    }
}

/// An operator that no generator of `gens` has keeps what the table held.
pub proof fn lemma_lookup_after_absent(
    lookup: Map<u16, SF2GeneratorAmount>,
    gens: Seq<SF2Generator>,
    op: u16,
)
    requires
        forall|i: int| 0 <= i < gens.len() ==> gens[i].operator != op,
    ensures
        lookup_after(lookup, gens).contains_key(op) == lookup.contains_key(op),
        lookup.contains_key(op) ==> lookup_after(lookup, gens)[op] == lookup[op],
    decreases gens.len(),
{
    if gens.len() > 0 {
        lemma_lookup_after_absent(lookup, gens.drop_last(), op);
    }
}

/// The table holds, for the operator of a generator, the amount of the last
/// generator with that operator.
pub proof fn lemma_lookup_after_last(
    lookup: Map<u16, SF2GeneratorAmount>,
    gens: Seq<SF2Generator>,
    at: int,
)
    requires
        0 <= at < gens.len(),
        forall|i: int| at < i < gens.len() ==> gens[i].operator != gens[at].operator,
    ensures
        lookup_after(lookup, gens).contains_key(gens[at].operator),
        lookup_after(lookup, gens)[gens[at].operator] == gens[at].amount,
    decreases gens.len(),
{
    if at < gens.len() - 1 {
        lemma_lookup_after_last(lookup, gens.drop_last(), at);
    }
}

/// An instrument: a name and its zones. The first zone may be a global one,
/// which applies to the whole instrument and points to no sample.
#[derive(Debug)]
pub struct SF2Instrument {
    pub name: String,
    pub ibag_index: u16,
    pub zones: Vec<Arc<SF2Zone>>,
}

/// A preset: a program and bank number and its zones. The first zone may be
/// a global one, which applies to the whole preset and points to no
/// instrument.
#[derive(Debug)]
pub struct SF2Preset {
    pub name: String,
    pub program_no: u16,
    pub bank: u16,
    pub pbag_index: u16,
    pub zones: Vec<Arc<SF2Zone>>,
    pub library: u32,
    pub genre: u32,
    pub morph: u32,
}

} // verus!
