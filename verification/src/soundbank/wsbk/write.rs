//! Writing a bank into the bytes of its container.

use crate::soundbank::bytes::{
    push_u16,
    push_u32,
    push_u64,
    to_unsigned8,
    u16_bytes,
    u32_bytes,
    u64_bytes,
    unsigned8,
};
use crate::soundbank::container::{
    is_small,
    lemma_tree_views,
    tree_bytes,
    tree_fits,
    write_tree,
    ChunkTree,
    TreeView,
    LIST_ID,
    RIFF_ID,
};
use crate::soundbank::wsbk::error::WsbkError;
use crate::soundbank::wsbk::fourcc;
use crate::soundbank::wsbk::read::parsed_bank;
use crate::soundbank::layout::lemma_fitting_list_is_small;
use crate::soundbank::wsbk::round_trip::{lemma_bank_read_back, lemma_bank_tree, written_whole};
use crate::soundbank::wsbk::{
    instrument_views,
    preset_views,
    region_views,
    sample_views,
    Articulator,
    Instrument,
    InstrumentView,
    Preset,
    PresetView,
    Region,
    RegionView,
    Sample,
    SampleView,
    WSBKView,
    WSBK,
};
use vstd::prelude::*;
use vstd::slice::slice_to_vec;
use vstd::utf8::encode_utf8;

verus! {

/// The chunk that holds a name.
pub open spec fn name_tree(name: Seq<char>) -> TreeView {
    TreeView::Data { id: fourcc::NAME@, data: encode_utf8(name) }
}

/// The 18 bytes of a sample header: bit depth, sample rate, type, start and
/// end of the loop, way of looping, base key, correction.
pub open spec fn smhd_bytes(s: SampleView) -> Seq<u8> {
    u16_bytes(s.bit_depth as int) + u32_bytes(s.sample_rate as int) + seq![s.sample_type.byte()]
        + u32_bytes(s.loop_start as int) + u32_bytes(s.loop_end as int) + seq![
        s.loop_type.byte(),
        s.base_key,
        unsigned8(s.cent_correction as int) as u8,
    ]
}

/// The list that holds one sample: name, header, data.
pub open spec fn smpl_tree(s: SampleView) -> TreeView {
    TreeView::Children {
        id: LIST_ID@,
        ty: fourcc::SMPL@,
        children: seq![
            name_tree(s.name),
            TreeView::Data { id: fourcc::SMHD@, data: smhd_bytes(s) },
            TreeView::Data { id: fourcc::SMDT@, data: s.data },
        ],
    }
}

/// The list that holds all samples.
pub open spec fn smls_tree(samples: Seq<SampleView>) -> TreeView {
    TreeView::Children {
        id: LIST_ID@,
        ty: fourcc::SMLS@,
        children: Seq::new(samples.len(), |i: int| smpl_tree(samples[i])),
    }
}

/// The 23 bytes of one articulator.
pub open spec fn articulator_bytes(a: Articulator) -> Seq<u8> {
    u32_bytes(a.src as int) + seq![a.src_transform] + u32_bytes(a.control as int) + seq![
        a.control_transform,
    ] + u32_bytes(a.destination as int) + seq![a.main_transform] + u64_bytes(a.scale_bits as int)
}

/// The bytes of the first `count` articulators, one behind the other.
pub open spec fn articulators_bytes(all: Seq<Articulator>, count: int) -> Seq<u8>
    decreases count,
{
    if count <= 0 {
        Seq::empty()
    } else {
        articulators_bytes(all, count - 1) + articulator_bytes(all[count - 1])
    }
}

/// The contents of an `artc` chunk: the number of articulators, cut to 32
/// bits, and the articulators.
pub open spec fn artc_bytes(all: Seq<Articulator>) -> Seq<u8> {
    u32_bytes(all.len() as int % 0x1_0000_0000) + articulators_bytes(all, all.len() as int)
}

/// The 8 bytes of a region header: key range, velocity range, target.
pub open spec fn rgnh_bytes(r: RegionView) -> Seq<u8> {
    seq![r.key_range.0, r.key_range.1, r.velocity_range.0, r.velocity_range.1] + u32_bytes(
        r.target_index as int,
    )
}

/// The list that holds one region: header and articulators.
pub open spec fn rgni_tree(r: RegionView) -> TreeView {
    TreeView::Children {
        id: LIST_ID@,
        ty: fourcc::RGNI@,
        children: seq![
            TreeView::Data { id: fourcc::RGNH@, data: rgnh_bytes(r) },
            TreeView::Data { id: fourcc::ARTC@, data: artc_bytes(r.articulators) },
        ],
    }
}

/// The list that holds the regions of an instrument or a preset.
pub open spec fn lrgn_tree(regions: Seq<RegionView>) -> TreeView {
    TreeView::Children {
        id: LIST_ID@,
        ty: fourcc::LRGN@,
        children: Seq::new(regions.len(), |i: int| rgni_tree(regions[i])),
    }
}

/// The list that holds one instrument: name and regions.
pub open spec fn inst_tree(x: InstrumentView) -> TreeView {
    TreeView::Children {
        id: LIST_ID@,
        ty: fourcc::INST@,
        children: seq![name_tree(x.name), lrgn_tree(x.regions)],
    }
}

/// The list that holds all instruments.
pub open spec fn lins_tree(instruments: Seq<InstrumentView>) -> TreeView {
    TreeView::Children {
        id: LIST_ID@,
        ty: fourcc::LINS@,
        children: Seq::new(instruments.len(), |i: int| inst_tree(instruments[i])),
    }
}

/// The 5 bytes of a preset header: program, bank, type.
pub open spec fn prsh_bytes(p: PresetView) -> Seq<u8> {
    u16_bytes(p.program_no as int) + seq![p.bank_msb, p.bank_lsb, p.type_flag.byte()]
}

/// The list that holds one preset: name, header and regions.
pub open spec fn prst_tree(p: PresetView) -> TreeView {
    TreeView::Children {
        id: LIST_ID@,
        ty: fourcc::PRST@,
        children: seq![
            name_tree(p.name),
            TreeView::Data { id: fourcc::PRSH@, data: prsh_bytes(p) },
            lrgn_tree(p.regions),
        ],
    }
}

/// The list that holds all presets.
pub open spec fn lprs_tree(presets: Seq<PresetView>) -> TreeView {
    TreeView::Children {
        id: LIST_ID@,
        ty: fourcc::LPRS@,
        children: Seq::new(presets.len(), |i: int| prst_tree(presets[i])),
    }
}

/// The container of a bank: samples, instruments, presets.
pub open spec fn bank_tree(b: WSBKView) -> TreeView {
    TreeView::Children {
        id: RIFF_ID@,
        ty: fourcc::WSBK@,
        children: seq![smls_tree(b.samples), lins_tree(b.instruments), lprs_tree(b.presets)],
    }
}

/// A chunk with the given contents.
pub fn data_chunk(id: [u8; 4], data: Vec<u8>) -> (res: ChunkTree)
    ensures
        res@ == (TreeView::Data { id: id@, data: data@ }),
{
    ChunkTree::Data { id, data }
}

/// A list of the given type with the given chunks.
pub fn list_chunk(id: [u8; 4], ty: [u8; 4], children: Vec<ChunkTree>) -> (res: ChunkTree)
    ensures
        res@ matches TreeView::Children { id: i, ty: t, children: c } && i == id@ && t == ty@
            && c.len() == children@.len() && forall|k: int|
            0 <= k < c.len() ==> #[trigger] c[k] == children@[k]@,
{
    proof {
        lemma_tree_views(children@, children@.len() as int);
    }
    ChunkTree::Children { id, ty, children }
}

/// The chunk that holds a name.
pub fn make_name(name: &str) -> (res: ChunkTree)
    ensures
        res@ == name_tree(name@),
{
    data_chunk(fourcc::NAME, slice_to_vec(name.as_bytes()))
}

impl Sample {
    /// The header chunk of the sample.
    pub fn make_smhd(&self) -> (res: ChunkTree)
        ensures
            res@ == (TreeView::Data { id: fourcc::SMHD@, data: smhd_bytes(self@) }),
    {
        let mut out: Vec<u8> = Vec::new();
        push_u16(&mut out, self.bit_depth);
        push_u32(&mut out, self.sample_rate);
        out.push(self.sample_type.as_byte());
        push_u32(&mut out, self.loop_start);
        push_u32(&mut out, self.loop_end);
        out.push(self.loop_type.as_byte());
        out.push(self.base_key);
        out.push(to_unsigned8(self.cent_correction));
        assert(out@ =~= smhd_bytes(self@));
        data_chunk(fourcc::SMHD, out)
    }

    /// The data chunk of the sample.
    pub fn make_smdt(&self) -> (res: ChunkTree)
        ensures
            res@ == (TreeView::Data { id: fourcc::SMDT@, data: self@.data }),
    {
        data_chunk(fourcc::SMDT, slice_to_vec(self.data.as_slice()))
    }

    /// The list that holds the sample.
    pub fn to_smpl(&self) -> (res: ChunkTree)
        ensures
            res@ == smpl_tree(self@),
    {
        let mut chunks: Vec<ChunkTree> = Vec::new();
        chunks.push(make_name(self.name.as_str()));
        chunks.push(self.make_smhd());
        chunks.push(self.make_smdt());
        let res = list_chunk(LIST_ID, fourcc::SMPL, chunks);
        assert(res@->Children_children =~= smpl_tree(self@)->Children_children);
        res
    }

    /// The list that holds all of `samples`.
    pub fn make_smls(samples: &Vec<Sample>) -> (res: ChunkTree)
        ensures
            res@ == smls_tree(sample_views(samples@)),
    {
        let mut chunks: Vec<ChunkTree> = Vec::new();
        let mut i: usize = 0;
        while i < samples.len()
            invariant
                i <= samples@.len(),
                chunks@.len() == i,
                forall|k: int| 0 <= k < i ==> (#[trigger] chunks@[k])@ == smpl_tree(samples@[k]@),
            decreases samples@.len() - i,
        {
            chunks.push(samples[i].to_smpl());
            i += 1;
        }
        let res = list_chunk(LIST_ID, fourcc::SMLS, chunks);
        assert(res@->Children_children =~= smls_tree(sample_views(samples@))->Children_children);
        res
    }
}

impl Articulator {
    /// The `artc` chunk that holds all of `articulators`.
    pub fn make_artc(articulators: &Vec<Articulator>) -> (res: ChunkTree)
        ensures
            res@ == (TreeView::Data { id: fourcc::ARTC@, data: artc_bytes(articulators@) }),
    {
        let mut out: Vec<u8> = Vec::new();
        push_u32(&mut out, (articulators.len() as u64 % 0x1_0000_0000) as u32);
        let ghost head = out@;
        let mut i: usize = 0;
        while i < articulators.len()
            invariant
                i <= articulators@.len(),
                out@ == head + articulators_bytes(articulators@, i as int),
            decreases articulators@.len() - i,
        {
            let a: Articulator = articulators[i];
            let ghost before = out@;
            push_u32(&mut out, a.src);
            out.push(a.src_transform);
            push_u32(&mut out, a.control);
            out.push(a.control_transform);
            push_u32(&mut out, a.destination);
            out.push(a.main_transform);
            push_u64(&mut out, a.scale_bits);
            assert(out@ =~= before + articulator_bytes(a));
            assert(out@ =~= head + articulators_bytes(articulators@, i + 1));
            i += 1;
        }
        data_chunk(fourcc::ARTC, out)
    }
}

impl Region {
    /// The header chunk of the region.
    pub fn make_rgnh(&self) -> (res: ChunkTree)
        ensures
            res@ == (TreeView::Data { id: fourcc::RGNH@, data: rgnh_bytes(self@) }),
    {
        let mut out: Vec<u8> = Vec::new();
        out.push(self.key_range.0);
        out.push(self.key_range.1);
        out.push(self.velocity_range.0);
        out.push(self.velocity_range.1);
        push_u32(&mut out, self.target_index);
        assert(out@ =~= rgnh_bytes(self@));
        data_chunk(fourcc::RGNH, out)
    }

    /// The list that holds the region.
    pub fn to_rgni(&self) -> (res: ChunkTree)
        ensures
            res@ == rgni_tree(self@),
    {
        let mut chunks: Vec<ChunkTree> = Vec::new();
        chunks.push(self.make_rgnh());
        chunks.push(Articulator::make_artc(&self.articulators));
        let res = list_chunk(LIST_ID, fourcc::RGNI, chunks);
        assert(res@->Children_children =~= rgni_tree(self@)->Children_children);
        res
    }

    /// The list that holds all of `regions`.
    pub fn make_lrgn(regions: &Vec<Region>) -> (res: ChunkTree)
        ensures
            res@ == lrgn_tree(region_views(regions@)),
    {
        let mut chunks: Vec<ChunkTree> = Vec::new();
        let mut i: usize = 0;
        while i < regions.len()
            invariant
                i <= regions@.len(),
                chunks@.len() == i,
                forall|k: int| 0 <= k < i ==> (#[trigger] chunks@[k])@ == rgni_tree(regions@[k]@),
            decreases regions@.len() - i,
        {
            chunks.push(regions[i].to_rgni());
            i += 1;
        }
        let res = list_chunk(LIST_ID, fourcc::LRGN, chunks);
        assert(res@->Children_children =~= lrgn_tree(region_views(regions@))->Children_children);
        res
    }
}

impl Instrument {
    /// The list that holds the instrument.
    pub fn to_inst(&self) -> (res: ChunkTree)
        ensures
            res@ == inst_tree(self@),
    {
        let mut chunks: Vec<ChunkTree> = Vec::new();
        chunks.push(make_name(self.name.as_str()));
        chunks.push(Region::make_lrgn(&self.regions));
        let res = list_chunk(LIST_ID, fourcc::INST, chunks);
        assert(res@->Children_children =~= inst_tree(self@)->Children_children);
        res
    }

    /// The list that holds all of `instruments`.
    pub fn make_lins(instruments: &Vec<Instrument>) -> (res: ChunkTree)
        ensures
            res@ == lins_tree(instrument_views(instruments@)),
    {
        let mut chunks: Vec<ChunkTree> = Vec::new();
        let mut i: usize = 0;
        while i < instruments.len()
            invariant
                i <= instruments@.len(),
                chunks@.len() == i,
                forall|k: int|
                    0 <= k < i ==> (#[trigger] chunks@[k])@ == inst_tree(instruments@[k]@),
            decreases instruments@.len() - i,
        {
            chunks.push(instruments[i].to_inst());
            i += 1;
        }
        let res = list_chunk(LIST_ID, fourcc::LINS, chunks);
        assert(res@->Children_children =~= lins_tree(
            instrument_views(instruments@),
        )->Children_children);
        res
    }
}

impl Preset {
    /// The header chunk of the preset.
    pub fn make_prsh(&self) -> (res: ChunkTree)
        ensures
            res@ == (TreeView::Data { id: fourcc::PRSH@, data: prsh_bytes(self@) }),
    {
        let mut out: Vec<u8> = Vec::new();
        push_u16(&mut out, self.program_no);
        out.push(self.bank_msb);
        out.push(self.bank_lsb);
        out.push(self.type_flag.as_byte());
        assert(out@ =~= prsh_bytes(self@));
        data_chunk(fourcc::PRSH, out)
    }

    /// The list that holds the preset.
    pub fn to_prst(&self) -> (res: ChunkTree)
        ensures
            res@ == prst_tree(self@),
    {
        let mut chunks: Vec<ChunkTree> = Vec::new();
        chunks.push(make_name(self.name.as_str()));
        chunks.push(self.make_prsh());
        chunks.push(Region::make_lrgn(&self.regions));
        let res = list_chunk(LIST_ID, fourcc::PRST, chunks);
        assert(res@->Children_children =~= prst_tree(self@)->Children_children);
        res
    }

    /// The list that holds all of `presets`.
    pub fn make_lprs(presets: &Vec<Preset>) -> (res: ChunkTree)
        ensures
            res@ == lprs_tree(preset_views(presets@)),
    {
        let mut chunks: Vec<ChunkTree> = Vec::new();
        let mut i: usize = 0;
        while i < presets.len()
            invariant
                i <= presets@.len(),
                chunks@.len() == i,
                forall|k: int| 0 <= k < i ==> (#[trigger] chunks@[k])@ == prst_tree(presets@[k]@),
            decreases presets@.len() - i,
        {
            chunks.push(presets[i].to_prst());
            i += 1;
        }
        let res = list_chunk(LIST_ID, fourcc::LPRS, chunks);
        assert(res@->Children_children =~= lprs_tree(preset_views(presets@))->Children_children);
        res
    }
}

impl WSBK {
    /// The container that holds the bank.
    pub fn make_wsbk(&self) -> (res: ChunkTree)
        ensures
            res@ == bank_tree(self@),
    {
        let mut chunks: Vec<ChunkTree> = Vec::new();
        chunks.push(Sample::make_smls(&self.samples));
        chunks.push(Instrument::make_lins(&self.instruments));
        chunks.push(Preset::make_lprs(&self.presets));
        let res = list_chunk(RIFF_ID, fourcc::WSBK, chunks);
        assert(res@->Children_children =~= bank_tree(self@)->Children_children);
        res
    }

    /// The bytes of the container that holds the bank. It fails where a
    /// chunk would hold more than a 32-bit length can say; contents that
    /// are too long for their own chunk are found before anything is
    /// written. The generators
    /// of regions are not written; a bank without them is read back from
    /// the bytes as it is.
    pub fn write(&self) -> (res: Result<Vec<u8>, WsbkError>)
        ensures
            match res {
                Ok(bytes) => {
                    &&& tree_fits(bank_tree(self@))
                    &&& bytes@ == tree_bytes(bank_tree(self@))
                    &&& written_whole(self@) ==> parsed_bank(bytes@) == Ok::<WSBKView, WsbkError>(
                        self@,
                    )
                },
                Err(e) => !tree_fits(bank_tree(self@)) && e == WsbkError::TooBig,
            },
    {
        let tree = self.make_wsbk();
        proof {
            lemma_bank_tree(self@);
            if tree_fits(tree@) {
                lemma_fitting_list_is_small(tree@);
            }
        }
        if !is_small(&tree) {
            return Err(WsbkError::TooBig);
        }
        match write_tree(&tree) {
            Ok(bytes) => {
                proof {
                    if written_whole(self@) {
                        lemma_bank_read_back(self@);
                    }
                }
                Ok(bytes)
            },
            Err(_) => Err(WsbkError::TooBig),
        }
    }
}

} // verus!
