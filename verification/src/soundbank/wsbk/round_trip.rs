//! What is written is read back: a bank that is written and read again is
//! the bank it was.

use crate::soundbank::bytes::{
    le_u16,
    le_u32,
    le_u64,
    lemma_read_u16_at,
    lemma_read_u32_at,
    lemma_read_u64_at,
    lemma_signed8_round_trip,
    signed8,
    u16_bytes,
    u32_bytes,
    u64_bytes,
    unsigned8,
};
use crate::soundbank::container::{
    children_at,
    contents_at,
    fold_children,
    fold_chunks,
    forest_bytes,
    id_at,
    len_at,
    tree_bytes,
    tree_fits,
    type_at,
    TreeView,
    LIST_ID,
    RIFF_ID,
};
use crate::soundbank::layout::{
    forest_wf,
    kid_offset,
    kid_offsets,
    laid_at,
    lemma_children_of_laid,
    lemma_contents_of_laid,
    lemma_header_of_laid,
    lemma_forest_fits,
    lemma_forest_wf,
    lemma_type_of_laid,
    tree_wf,
};
use crate::soundbank::wsbk::fourcc;
use crate::soundbank::wsbk::read::{
    articulator_at,
    blank_bank,
    blank_instrument,
    blank_preset,
    blank_region,
    bank_step,
    bank_with_list,
    instrument_step,
    instrument_with_chunk,
    instruments_step,
    instruments_with_chunk,
    list_regions,
    parsed_artc,
    parsed_bank,
    parsed_inst,
    parsed_lins,
    parsed_lprs,
    parsed_lrgn,
    parsed_prst,
    parsed_rgni,
    parsed_smls,
    parsed_smpl,
    parsed_text,
    preset_step,
    preset_with_chunk,
    presets_step,
    presets_with_chunk,
    region_step,
    region_with_chunk,
    regions_step,
    regions_with_chunk,
    sample_step,
    sample_with_chunk,
    samples_step,
    samples_with_chunk,
};
use crate::soundbank::wsbk::write::{
    artc_bytes,
    articulator_bytes,
    articulators_bytes,
    bank_tree,
    inst_tree,
    lins_tree,
    lprs_tree,
    lrgn_tree,
    name_tree,
    prsh_bytes,
    prst_tree,
    rgnh_bytes,
    rgni_tree,
    smhd_bytes,
    smls_tree,
    smpl_tree,
};
use crate::soundbank::wsbk::{
    blank_sample,
    Articulator,
    InstrumentView,
    LoopType,
    PresetType,
    PresetView,
    RegionView,
    SampleType,
    SampleView,
    WSBKView,
    WsbkError,
};
use vstd::prelude::*;
use vstd::utf8::{decode_utf8, encode_utf8, valid_utf8};

verus! {

/// The identifiers of the format are four bytes each, and no two of those
/// that stand side by side are the same.
pub proof fn lemma_identifiers()
    ensures
        fourcc::NAME@.len() == 4,
        fourcc::SMHD@.len() == 4,
        fourcc::SMDT@.len() == 4,
        fourcc::RGNH@.len() == 4,
        fourcc::ARTC@.len() == 4,
        fourcc::PRSH@.len() == 4,
        fourcc::SMPL@.len() == 4,
        fourcc::SMLS@.len() == 4,
        fourcc::RGNI@.len() == 4,
        fourcc::LRGN@.len() == 4,
        fourcc::INST@.len() == 4,
        fourcc::LINS@.len() == 4,
        fourcc::PRST@.len() == 4,
        fourcc::LPRS@.len() == 4,
        fourcc::WSBK@.len() == 4,
        LIST_ID@.len() == 4,
        RIFF_ID@.len() == 4,
        fourcc::SMHD@ != fourcc::NAME@,
        fourcc::SMDT@ != fourcc::NAME@,
        fourcc::SMDT@ != fourcc::SMHD@,
        fourcc::ARTC@ != fourcc::RGNH@,
        fourcc::PRSH@ != fourcc::NAME@,
        LIST_ID@ != fourcc::NAME@,
        LIST_ID@ != fourcc::PRSH@,
        fourcc::LINS@ != fourcc::SMLS@,
        fourcc::LPRS@ != fourcc::SMLS@,
        fourcc::LPRS@ != fourcc::LINS@,
{
    assert(fourcc::SMHD@[0] != fourcc::NAME@[0]);
    assert(fourcc::SMDT@[0] != fourcc::NAME@[0]);
    assert(fourcc::SMDT@[2] != fourcc::SMHD@[2]);
    assert(fourcc::ARTC@[0] != fourcc::RGNH@[0]);
    assert(fourcc::PRSH@[0] != fourcc::NAME@[0]);
    assert(LIST_ID@[0] != fourcc::NAME@[0]);
    assert(LIST_ID@[0] != fourcc::PRSH@[0]);
    assert(fourcc::LINS@[0] != fourcc::SMLS@[0]);
    assert(fourcc::LPRS@[0] != fourcc::SMLS@[0]);
    assert(fourcc::LPRS@[1] != fourcc::LINS@[1]);
}

/// A name that was written is read as it was.
pub proof fn lemma_name_read_back(data: Seq<u8>, at: int, name: Seq<char>)
    requires
        laid_at(data, at, name_tree(name)),
        tree_fits(name_tree(name)),
    ensures
        id_at(data, at) == fourcc::NAME@,
        parsed_text(data, at) == Ok::<Seq<char>, WsbkError>(name),
{
    broadcast use vstd::utf8::encode_utf8_valid_utf8, vstd::utf8::encode_utf8_decode_utf8;

    lemma_identifiers();
    lemma_contents_of_laid(data, at, fourcc::NAME@, encode_utf8(name));
}

/// The fields of a sample header that was written are read as they were.
pub proof fn lemma_smhd_fields(s: SampleView)
    ensures
        smhd_bytes(s).len() == 18,
        le_u16(smhd_bytes(s), 0) == s.bit_depth,
        le_u32(smhd_bytes(s), 2) == s.sample_rate,
        smhd_bytes(s)[6] == s.sample_type.byte(),
        le_u32(smhd_bytes(s), 7) == s.loop_start,
        le_u32(smhd_bytes(s), 11) == s.loop_end,
        smhd_bytes(s)[15] == s.loop_type.byte(),
        smhd_bytes(s)[16] == s.base_key,
        signed8(smhd_bytes(s)[17] as int) == s.cent_correction,
{
    let c = smhd_bytes(s);
    assert(c.len() == 18);
    assert(c.subrange(0, 2) =~= u16_bytes(s.bit_depth as int));
    assert(c.subrange(2, 6) =~= u32_bytes(s.sample_rate as int));
    assert(c.subrange(7, 11) =~= u32_bytes(s.loop_start as int));
    assert(c.subrange(11, 15) =~= u32_bytes(s.loop_end as int));
    lemma_read_u16_at(c, 0, s.bit_depth as int);
    lemma_read_u32_at(c, 2, s.sample_rate as int);
    lemma_read_u32_at(c, 7, s.loop_start as int);
    lemma_read_u32_at(c, 11, s.loop_end as int);
    lemma_signed8_round_trip(s.cent_correction as int);
}

/// A sample takes in its written header as it was.
pub proof fn lemma_smhd_step(data: Seq<u8>, at: int, acc: SampleView, s: SampleView)
    requires
        laid_at(data, at, TreeView::Data { id: fourcc::SMHD@, data: smhd_bytes(s) }),
    ensures
        sample_with_chunk(data, acc, at) == Ok::<SampleView, WsbkError>(
            SampleView { name: acc.name, data: acc.data, ..s },
        ),
{
    lemma_identifiers();
    lemma_smhd_fields(s);
    lemma_contents_of_laid(data, at, fourcc::SMHD@, smhd_bytes(s));
}

/// A sample takes in its written data as they were.
pub proof fn lemma_smdt_step(data: Seq<u8>, at: int, acc: SampleView, bytes: Seq<u8>)
    requires
        laid_at(data, at, TreeView::Data { id: fourcc::SMDT@, data: bytes }),
        bytes.len() <= u32::MAX,
    ensures
        sample_with_chunk(data, acc, at) == Ok::<SampleView, WsbkError>(
            SampleView { data: bytes, ..acc },
        ),
{
    lemma_identifiers();
    lemma_contents_of_laid(data, at, fourcc::SMDT@, bytes);
}

/// A sample takes in its written name as it was.
pub proof fn lemma_sample_name_step(data: Seq<u8>, at: int, acc: SampleView, name: Seq<char>)
    requires
        laid_at(data, at, name_tree(name)),
        tree_fits(name_tree(name)),
    ensures
        sample_with_chunk(data, acc, at) == Ok::<SampleView, WsbkError>(
            SampleView { name: acc.name + name, ..acc },
        ),
{
    lemma_name_read_back(data, at, name);
}

/// The three chunks of a sample are well-formed, and they can be written
/// where the sample can.
pub proof fn lemma_smpl_tree(s: SampleView)
    ensures
        tree_wf(smpl_tree(s)),
        smpl_tree(s)->children.len() == 3,
        tree_fits(smpl_tree(s)) ==> tree_fits(name_tree(s.name)) && s.data.len() <= u32::MAX,
{
    lemma_identifiers();
    let kids = smpl_tree(s)->children;
    assert(tree_wf(kids[0]) && tree_wf(kids[1]) && tree_wf(kids[2]));
    lemma_forest_wf(kids, 3);
    if tree_fits(smpl_tree(s)) {
        lemma_forest_fits(kids, 3);
        assert(tree_fits(kids[0]) && tree_fits(kids[2]));
    }
}

/// A sample that was written is read as it was.
pub proof fn lemma_smpl_read_back(data: Seq<u8>, at: int, s: SampleView)
    requires
        laid_at(data, at, smpl_tree(s)),
        tree_fits(smpl_tree(s)),
    ensures
        type_at(data, at) == Some(fourcc::SMPL@),
        parsed_smpl(data, at) == Ok::<SampleView, WsbkError>(s),
{
    let t = smpl_tree(s);
    let kids = t->children;
    lemma_smpl_tree(s);
    lemma_type_of_laid(data, at, t);
    lemma_children_of_laid(data, at, t);
    let offsets = kid_offsets(at + 12, kids);
    let blank = blank_sample(Seq::empty());
    let named = SampleView { name: s.name, ..blank };
    let headed = SampleView { data: Seq::empty(), ..s };
    assert(laid_at(data, offsets[0], kids[0]));
    assert(laid_at(data, offsets[1], kids[1]));
    assert(laid_at(data, offsets[2], kids[2]));
    lemma_sample_name_step(data, offsets[0], blank, s.name);
    assert(blank.name + s.name =~= s.name);
    lemma_smhd_step(data, offsets[1], named, s);
    lemma_smdt_step(data, offsets[2], headed, s.data);
    lemma_fold_three(offsets, blank, named, headed, s, sample_step(data));
}

/// Three steps that succeed one after the other make up the fold of three
/// chunks.
pub proof fn lemma_fold_three<A>(
    offsets: Seq<int>,
    a0: A,
    a1: A,
    a2: A,
    a3: A,
    step: spec_fn(A, int) -> Result<A, WsbkError>,
)
    requires
        offsets.len() == 3,
        step(a0, offsets[0]) == Ok::<A, WsbkError>(a1),
        step(a1, offsets[1]) == Ok::<A, WsbkError>(a2),
        step(a2, offsets[2]) == Ok::<A, WsbkError>(a3),
    ensures
        fold_chunks(offsets, 3, a0, step) == Ok::<A, WsbkError>(a3),
{
    assert(fold_chunks(offsets, 0, a0, step) == Ok::<A, WsbkError>(a0));
    assert(fold_chunks(offsets, 1, a0, step) == Ok::<A, WsbkError>(a1));
    assert(fold_chunks(offsets, 2, a0, step) == Ok::<A, WsbkError>(a2));
}

/// Two steps that succeed one after the other make up the fold of two
/// chunks.
pub proof fn lemma_fold_two<A>(
    offsets: Seq<int>,
    a0: A,
    a1: A,
    a2: A,
    step: spec_fn(A, int) -> Result<A, WsbkError>,
)
    requires
        offsets.len() == 2,
        step(a0, offsets[0]) == Ok::<A, WsbkError>(a1),
        step(a1, offsets[1]) == Ok::<A, WsbkError>(a2),
    ensures
        fold_chunks(offsets, 2, a0, step) == Ok::<A, WsbkError>(a2),
{
    assert(fold_chunks(offsets, 0, a0, step) == Ok::<A, WsbkError>(a0));
    assert(fold_chunks(offsets, 1, a0, step) == Ok::<A, WsbkError>(a1));
}

/// Where every chunk adds its item, the fold of the chunks is the run of
/// the items.
pub proof fn lemma_fold_collects<V>(
    offsets: Seq<int>,
    items: Seq<V>,
    step: spec_fn(Seq<V>, int) -> Result<Seq<V>, WsbkError>,
    count: int,
)
    requires
        offsets.len() == items.len(),
        0 <= count <= items.len(),
        forall|acc: Seq<V>, i: int|
            0 <= i < items.len() ==> #[trigger] step(acc, offsets[i]) == Ok::<Seq<V>, WsbkError>(
                acc.push(items[i]),
            ),
    ensures
        fold_chunks(offsets, count, Seq::empty(), step) == Ok::<Seq<V>, WsbkError>(
            items.take(count),
        ),
    decreases count,
{
    if count > 0 {
        lemma_fold_collects(offsets, items, step, count - 1);
        assert(items.take(count - 1).push(items[count - 1]) =~= items.take(count));
    } else {
        assert(items.take(0) =~= Seq::<V>::empty());
    }
}

/// A list of items is well-formed where its items are, the items can be
/// written where the list can, and item `i` is chunk `i` of the list.
pub proof fn lemma_list_tree(ty: Seq<u8>, kids: Seq<TreeView>)
    requires
        ty.len() == 4,
        forall|i: int| 0 <= i < kids.len() ==> tree_wf(#[trigger] kids[i]),
    ensures
        tree_wf(TreeView::Children { id: LIST_ID@, ty, children: kids }),
        tree_fits(TreeView::Children { id: LIST_ID@, ty, children: kids }) ==> forall|i: int|
            0 <= i < kids.len() ==> tree_fits(#[trigger] kids[i]),
{
    lemma_identifiers();
    lemma_forest_wf(kids, kids.len() as int);
    if tree_fits(TreeView::Children { id: LIST_ID@, ty, children: kids }) {
        lemma_forest_fits(kids, kids.len() as int);
    }
}

/// The samples that were written are read as they were.
pub proof fn lemma_smls_read_back(data: Seq<u8>, at: int, samples: Seq<SampleView>)
    requires
        laid_at(data, at, smls_tree(samples)),
        tree_fits(smls_tree(samples)),
    ensures
        type_at(data, at) == Some(fourcc::SMLS@),
        parsed_smls(data, at) == Ok::<Seq<SampleView>, WsbkError>(samples),
{
    lemma_identifiers();
    let t = smls_tree(samples);
    let kids = t->children;
    assert forall|i: int| 0 <= i < kids.len() implies tree_wf(#[trigger] kids[i]) by {
        lemma_smpl_tree(samples[i]);
    }
    lemma_list_tree(fourcc::SMLS@, kids);
    lemma_type_of_laid(data, at, t);
    lemma_children_of_laid(data, at, t);
    let offsets = kid_offsets(at + 12, kids);
    let step = samples_step(data);
    assert forall|acc: Seq<SampleView>, i: int| 0 <= i < samples.len() implies #[trigger] step(
        acc,
        offsets[i],
    ) == Ok::<Seq<SampleView>, WsbkError>(acc.push(samples[i])) by {
        assert(laid_at(data, offsets[i], kids[i]));
        assert(tree_fits(kids[i]));
        lemma_smpl_read_back(data, offsets[i], samples[i]);
    }
    lemma_fold_collects(offsets, samples, step, samples.len() as int);
    assert(samples.take(samples.len() as int) =~= samples);
}

/// The bytes of articulators are 23 for each of them.
pub proof fn lemma_articulators_len(all: Seq<Articulator>, count: int)
    requires
        0 <= count <= all.len(),
    ensures
        articulators_bytes(all, count).len() == 23 * count,
    decreases count,
{
    if count > 0 {
        lemma_articulators_len(all, count - 1);
        assert(articulator_bytes(all[count - 1]).len() == 23);
    }
}

/// Articulator `i` stands behind the articulators before it.
pub proof fn lemma_articulator_place(all: Seq<Articulator>, count: int, i: int)
    requires
        0 <= i < count <= all.len(),
    ensures
        articulators_bytes(all, count).len() == 23 * count,
        articulators_bytes(all, count).subrange(23 * i, 23 * i + 23) == articulator_bytes(all[i]),
    decreases count,
{
    lemma_articulators_len(all, count);
    lemma_articulators_len(all, count - 1);
    let shorter = articulators_bytes(all, count - 1);
    let last = articulator_bytes(all[count - 1]);
    assert(last.len() == 23);
    let longer = articulators_bytes(all, count);
    assert(longer == shorter + last);
    if i == count - 1 {
        assert(longer.subrange(23 * i, 23 * i + 23) =~= last);
    } else {
        lemma_articulator_place(all, count - 1, i);
        assert(longer.subrange(23 * i, 23 * i + 23) =~= shorter.subrange(23 * i, 23 * i + 23));
    }
}

/// The fields of an articulator that was written are read as they were.
pub proof fn lemma_articulator_fields(content: Seq<u8>, i: int, x: Articulator)
    requires
        0 <= i,
        4 + 23 * i + 23 <= content.len(),
        content.subrange(4 + 23 * i, 4 + 23 * i + 23) == articulator_bytes(x),
    ensures
        articulator_at(content, i) == x,
{
    let at = 4 + 23 * i;
    let rec = articulator_bytes(x);
    let part = content.subrange(at, at + 23);
    assert(rec.len() == 23);
    assert forall|k: int| 0 <= k < 23 implies content[at + k] == rec[k] by {
        assert(part[k] == content[at + k]);
    }
    assert(rec.subrange(0, 4) =~= u32_bytes(x.src as int));
    assert(rec[4] == x.src_transform);
    assert(rec.subrange(5, 9) =~= u32_bytes(x.control as int));
    assert(rec[9] == x.control_transform);
    assert(rec.subrange(10, 14) =~= u32_bytes(x.destination as int));
    assert(rec[14] == x.main_transform);
    assert(rec.subrange(15, 23) =~= u64_bytes(x.scale_bits as int));
    assert(content.subrange(at, at + 4) =~= rec.subrange(0, 4));
    assert(content.subrange(at + 5, at + 9) =~= rec.subrange(5, 9));
    assert(content.subrange(at + 10, at + 14) =~= rec.subrange(10, 14));
    assert(content.subrange(at + 15, at + 23) =~= rec.subrange(15, 23));
    lemma_read_u32_at(content, at, x.src as int);
    lemma_read_u32_at(content, at + 5, x.control as int);
    lemma_read_u32_at(content, at + 10, x.destination as int);
    lemma_read_u64_at(content, at + 15, x.scale_bits as int);
}

/// The articulators that were written are read as they were.
pub proof fn lemma_artc_read_back(all: Seq<Articulator>)
    requires
        4 + 23 * all.len() <= u32::MAX,
    ensures
        artc_bytes(all).len() == 4 + 23 * all.len(),
        parsed_artc(artc_bytes(all)) == Ok::<Seq<Articulator>, WsbkError>(all),
{
    let n = all.len() as int;
    let content = artc_bytes(all);
    let records = articulators_bytes(all, n);
    lemma_articulators_len(all, n);
    assert(n % 0x1_0000_0000 == n);
    assert(content.subrange(0, 4) =~= u32_bytes(n));
    lemma_read_u32_at(content, 0, n);
    let read = Seq::new(n as nat, |i: int| articulator_at(content, i));
    assert forall|i: int| 0 <= i < n implies read[i] == all[i] by {
        lemma_articulator_place(all, n, i);
        assert(content.subrange(4 + 23 * i, 4 + 23 * i + 23) =~= records.subrange(
            23 * i,
            23 * i + 23,
        ));
        lemma_articulator_fields(content, i, all[i]);
    }
    assert(read =~= all);
}

/// The fields of a region header that was written are read as they were.
pub proof fn lemma_rgnh_fields(r: RegionView)
    ensures
        rgnh_bytes(r).len() == 8,
        rgnh_bytes(r)[0] == r.key_range.0,
        rgnh_bytes(r)[1] == r.key_range.1,
        rgnh_bytes(r)[2] == r.velocity_range.0,
        rgnh_bytes(r)[3] == r.velocity_range.1,
        le_u32(rgnh_bytes(r), 4) == r.target_index,
{
    let c = rgnh_bytes(r);
    assert(c.subrange(4, 8) =~= u32_bytes(r.target_index as int));
    lemma_read_u32_at(c, 4, r.target_index as int);
}

/// A region takes in its written header as it was.
pub proof fn lemma_rgnh_step(data: Seq<u8>, at: int, acc: RegionView, r: RegionView)
    requires
        laid_at(data, at, TreeView::Data { id: fourcc::RGNH@, data: rgnh_bytes(r) }),
    ensures
        region_with_chunk(data, acc, at) == Ok::<RegionView, WsbkError>(
            RegionView { generators: acc.generators, articulators: acc.articulators, ..r },
        ),
{
    lemma_identifiers();
    lemma_rgnh_fields(r);
    lemma_contents_of_laid(data, at, fourcc::RGNH@, rgnh_bytes(r));
}

/// A region takes in its written articulators as they were.
pub proof fn lemma_artc_step(data: Seq<u8>, at: int, acc: RegionView, all: Seq<Articulator>)
    requires
        laid_at(data, at, TreeView::Data { id: fourcc::ARTC@, data: artc_bytes(all) }),
        artc_bytes(all).len() <= u32::MAX,
    ensures
        region_with_chunk(data, acc, at) == Ok::<RegionView, WsbkError>(
            RegionView { articulators: acc.articulators + all, ..acc },
        ),
{
    lemma_identifiers();
    lemma_articulators_len(all, all.len() as int);
    lemma_artc_read_back(all);
    lemma_contents_of_laid(data, at, fourcc::ARTC@, artc_bytes(all));
}

/// The two chunks of a region are well-formed, and they can be written
/// where the region can.
pub proof fn lemma_rgni_tree(r: RegionView)
    ensures
        tree_wf(rgni_tree(r)),
        rgni_tree(r)->children.len() == 2,
        tree_fits(rgni_tree(r)) ==> artc_bytes(r.articulators).len() <= u32::MAX,
{
    lemma_identifiers();
    let kids = rgni_tree(r)->children;
    assert(tree_wf(kids[0]) && tree_wf(kids[1]));
    lemma_forest_wf(kids, 2);
    if tree_fits(rgni_tree(r)) {
        lemma_forest_fits(kids, 2);
        assert(tree_fits(kids[1]));
    }
}

/// A region that was written without generators is read as it was.
pub proof fn lemma_rgni_read_back(data: Seq<u8>, at: int, r: RegionView)
    requires
        laid_at(data, at, rgni_tree(r)),
        tree_fits(rgni_tree(r)),
        r.generators == Map::<u16, i32>::empty(),
    ensures
        type_at(data, at) == Some(fourcc::RGNI@),
        parsed_rgni(data, at) == Ok::<RegionView, WsbkError>(r),
{
    let t = rgni_tree(r);
    let kids = t->children;
    lemma_rgni_tree(r);
    lemma_type_of_laid(data, at, t);
    lemma_children_of_laid(data, at, t);
    let offsets = kid_offsets(at + 12, kids);
    let blank = blank_region();
    let headed = RegionView { articulators: Seq::empty(), ..r };
    assert(laid_at(data, offsets[0], kids[0]));
    assert(laid_at(data, offsets[1], kids[1]));
    lemma_rgnh_step(data, offsets[0], blank, r);
    lemma_artc_step(data, offsets[1], headed, r.articulators);
    assert(headed.articulators + r.articulators =~= r.articulators);
    lemma_fold_two(offsets, blank, headed, r, region_step(data));
}

/// Whether no region of a run holds a generator. Generators are not
/// written.
pub open spec fn no_generators(regions: Seq<RegionView>) -> bool {
    forall|i: int|
        0 <= i < regions.len() ==> (#[trigger] regions[i]).generators == Map::<u16, i32>::empty()
}

/// The list of regions is well-formed.
pub proof fn lemma_lrgn_tree(regions: Seq<RegionView>)
    ensures
        tree_wf(lrgn_tree(regions)),
{
    lemma_identifiers();
    let kids = lrgn_tree(regions)->children;
    assert forall|i: int| 0 <= i < kids.len() implies tree_wf(#[trigger] kids[i]) by {
        lemma_rgni_tree(regions[i]);
    }
    lemma_list_tree(fourcc::LRGN@, kids);
}

/// The regions that were written without generators are read as they
/// were.
pub proof fn lemma_lrgn_read_back(data: Seq<u8>, at: int, regions: Seq<RegionView>)
    requires
        laid_at(data, at, lrgn_tree(regions)),
        tree_fits(lrgn_tree(regions)),
        no_generators(regions),
    ensures
        id_at(data, at) == LIST_ID@,
        list_regions(data, at) == Ok::<Seq<RegionView>, WsbkError>(regions),
{
    lemma_identifiers();
    let t = lrgn_tree(regions);
    let kids = t->children;
    assert forall|i: int| 0 <= i < kids.len() implies tree_wf(#[trigger] kids[i]) by {
        lemma_rgni_tree(regions[i]);
    }
    lemma_list_tree(fourcc::LRGN@, kids);
    lemma_header_of_laid(data, at, t);
    lemma_type_of_laid(data, at, t);
    lemma_children_of_laid(data, at, t);
    let offsets = kid_offsets(at + 12, kids);
    let step = regions_step(data);
    assert forall|acc: Seq<RegionView>, i: int| 0 <= i < regions.len() implies #[trigger] step(
        acc,
        offsets[i],
    ) == Ok::<Seq<RegionView>, WsbkError>(acc.push(regions[i])) by {
        assert(laid_at(data, offsets[i], kids[i]));
        assert(tree_fits(kids[i]));
        lemma_rgni_read_back(data, offsets[i], regions[i]);
    }
    lemma_fold_collects(offsets, regions, step, regions.len() as int);
    assert(regions.take(regions.len() as int) =~= regions);
}

/// The two chunks of an instrument are well-formed, and they can be
/// written where the instrument can.
pub proof fn lemma_inst_tree(x: InstrumentView)
    ensures
        tree_wf(inst_tree(x)),
        inst_tree(x)->children.len() == 2,
        tree_fits(inst_tree(x)) ==> tree_fits(name_tree(x.name)) && tree_fits(
            lrgn_tree(x.regions),
        ),
{
    lemma_identifiers();
    lemma_lrgn_tree(x.regions);
    let kids = inst_tree(x)->children;
    assert(tree_wf(kids[0]) && tree_wf(kids[1]));
    lemma_forest_wf(kids, 2);
    if tree_fits(inst_tree(x)) {
        lemma_forest_fits(kids, 2);
        assert(tree_fits(kids[0]) && tree_fits(kids[1]));
    }
}

/// An instrument that was written without generators is read as it was.
pub proof fn lemma_inst_read_back(data: Seq<u8>, at: int, x: InstrumentView)
    requires
        laid_at(data, at, inst_tree(x)),
        tree_fits(inst_tree(x)),
        no_generators(x.regions),
    ensures
        type_at(data, at) == Some(fourcc::INST@),
        parsed_inst(data, at) == Ok::<InstrumentView, WsbkError>(x),
{
    lemma_identifiers();
    let t = inst_tree(x);
    let kids = t->children;
    lemma_inst_tree(x);
    lemma_type_of_laid(data, at, t);
    lemma_children_of_laid(data, at, t);
    let offsets = kid_offsets(at + 12, kids);
    let blank = blank_instrument();
    let named = InstrumentView { name: x.name, ..blank };
    assert(laid_at(data, offsets[0], kids[0]));
    assert(laid_at(data, offsets[1], kids[1]));
    lemma_name_read_back(data, offsets[0], x.name);
    assert(blank.name + x.name =~= x.name);
    lemma_lrgn_read_back(data, offsets[1], x.regions);
    assert(named.regions + x.regions =~= x.regions);
    assert(instrument_with_chunk(data, blank, offsets[0]) == Ok::<InstrumentView, WsbkError>(
        named,
    ));
    assert(instrument_with_chunk(data, named, offsets[1]) == Ok::<InstrumentView, WsbkError>(x));
    lemma_fold_two(offsets, blank, named, x, instrument_step(data));
}

/// Whether no region of any instrument of a run holds a generator.
pub open spec fn instruments_without_generators(all: Seq<InstrumentView>) -> bool {
    forall|i: int| 0 <= i < all.len() ==> no_generators((#[trigger] all[i]).regions)
}

/// The instruments that were written without generators are read as they
/// were.
pub proof fn lemma_lins_read_back(data: Seq<u8>, at: int, all: Seq<InstrumentView>)
    requires
        laid_at(data, at, lins_tree(all)),
        tree_fits(lins_tree(all)),
        instruments_without_generators(all),
    ensures
        type_at(data, at) == Some(fourcc::LINS@),
        parsed_lins(data, at) == Ok::<Seq<InstrumentView>, WsbkError>(all),
{
    lemma_identifiers();
    let t = lins_tree(all);
    let kids = t->children;
    assert forall|i: int| 0 <= i < kids.len() implies tree_wf(#[trigger] kids[i]) by {
        lemma_inst_tree(all[i]);
    }
    lemma_list_tree(fourcc::LINS@, kids);
    lemma_type_of_laid(data, at, t);
    lemma_children_of_laid(data, at, t);
    let offsets = kid_offsets(at + 12, kids);
    let step = instruments_step(data);
    assert forall|acc: Seq<InstrumentView>, i: int| 0 <= i < all.len() implies #[trigger] step(
        acc,
        offsets[i],
    ) == Ok::<Seq<InstrumentView>, WsbkError>(acc.push(all[i])) by {
        assert(laid_at(data, offsets[i], kids[i]));
        assert(tree_fits(kids[i]));
        lemma_inst_read_back(data, offsets[i], all[i]);
    }
    lemma_fold_collects(offsets, all, step, all.len() as int);
    assert(all.take(all.len() as int) =~= all);
}

/// The fields of a preset header that was written are read as they were.
pub proof fn lemma_prsh_fields(p: PresetView)
    ensures
        prsh_bytes(p).len() == 5,
        le_u16(prsh_bytes(p), 0) == p.program_no,
        prsh_bytes(p)[2] == p.bank_msb,
        prsh_bytes(p)[3] == p.bank_lsb,
        prsh_bytes(p)[4] == p.type_flag.byte(),
{
    let c = prsh_bytes(p);
    assert(c.subrange(0, 2) =~= u16_bytes(p.program_no as int));
    lemma_read_u16_at(c, 0, p.program_no as int);
}

/// A preset takes in its written header as it was.
pub proof fn lemma_prsh_step(data: Seq<u8>, at: int, acc: PresetView, p: PresetView)
    requires
        laid_at(data, at, TreeView::Data { id: fourcc::PRSH@, data: prsh_bytes(p) }),
    ensures
        preset_with_chunk(data, acc, at) == Ok::<PresetView, WsbkError>(
            PresetView { name: acc.name, regions: acc.regions, ..p },
        ),
{
    lemma_identifiers();
    lemma_prsh_fields(p);
    lemma_contents_of_laid(data, at, fourcc::PRSH@, prsh_bytes(p));
}

/// The three chunks of a preset are well-formed, and they can be written
/// where the preset can.
pub proof fn lemma_prst_tree(p: PresetView)
    ensures
        tree_wf(prst_tree(p)),
        prst_tree(p)->children.len() == 3,
        tree_fits(prst_tree(p)) ==> tree_fits(name_tree(p.name)) && tree_fits(
            lrgn_tree(p.regions),
        ),
{
    lemma_identifiers();
    lemma_lrgn_tree(p.regions);
    let kids = prst_tree(p)->children;
    assert(tree_wf(kids[0]) && tree_wf(kids[1]) && tree_wf(kids[2]));
    lemma_forest_wf(kids, 3);
    if tree_fits(prst_tree(p)) {
        lemma_forest_fits(kids, 3);
        assert(tree_fits(kids[0]) && tree_fits(kids[2]));
    }
}

/// A preset that was written without generators is read as it was.
pub proof fn lemma_prst_read_back(data: Seq<u8>, at: int, p: PresetView)
    requires
        laid_at(data, at, prst_tree(p)),
        tree_fits(prst_tree(p)),
        no_generators(p.regions),
    ensures
        type_at(data, at) == Some(fourcc::PRST@),
        parsed_prst(data, at) == Ok::<PresetView, WsbkError>(p),
{
    lemma_identifiers();
    let t = prst_tree(p);
    let kids = t->children;
    lemma_prst_tree(p);
    lemma_type_of_laid(data, at, t);
    lemma_children_of_laid(data, at, t);
    let offsets = kid_offsets(at + 12, kids);
    let blank = blank_preset();
    let named = PresetView { name: p.name, ..blank };
    let headed = PresetView { regions: Seq::empty(), ..p };
    assert(laid_at(data, offsets[0], kids[0]));
    assert(laid_at(data, offsets[1], kids[1]));
    assert(laid_at(data, offsets[2], kids[2]));
    lemma_name_read_back(data, offsets[0], p.name);
    assert(blank.name + p.name =~= p.name);
    lemma_prsh_step(data, offsets[1], named, p);
    lemma_lrgn_read_back(data, offsets[2], p.regions);
    assert(headed.regions + p.regions =~= p.regions);
    assert(preset_with_chunk(data, blank, offsets[0]) == Ok::<PresetView, WsbkError>(named));
    assert(preset_with_chunk(data, headed, offsets[2]) == Ok::<PresetView, WsbkError>(p));
    lemma_fold_three(offsets, blank, named, headed, p, preset_step(data));
}

/// Whether no region of any preset of a run holds a generator.
pub open spec fn presets_without_generators(all: Seq<PresetView>) -> bool {
    forall|i: int| 0 <= i < all.len() ==> no_generators((#[trigger] all[i]).regions)
}

/// The presets that were written without generators are read as they
/// were.
pub proof fn lemma_lprs_read_back(data: Seq<u8>, at: int, all: Seq<PresetView>)
    requires
        laid_at(data, at, lprs_tree(all)),
        tree_fits(lprs_tree(all)),
        presets_without_generators(all),
    ensures
        type_at(data, at) == Some(fourcc::LPRS@),
        parsed_lprs(data, at) == Ok::<Seq<PresetView>, WsbkError>(all),
{
    lemma_identifiers();
    let t = lprs_tree(all);
    let kids = t->children;
    assert forall|i: int| 0 <= i < kids.len() implies tree_wf(#[trigger] kids[i]) by {
        lemma_prst_tree(all[i]);
    }
    lemma_list_tree(fourcc::LPRS@, kids);
    lemma_type_of_laid(data, at, t);
    lemma_children_of_laid(data, at, t);
    let offsets = kid_offsets(at + 12, kids);
    let step = presets_step(data);
    assert forall|acc: Seq<PresetView>, i: int| 0 <= i < all.len() implies #[trigger] step(
        acc,
        offsets[i],
    ) == Ok::<Seq<PresetView>, WsbkError>(acc.push(all[i])) by {
        assert(laid_at(data, offsets[i], kids[i]));
        assert(tree_fits(kids[i]));
        lemma_prst_read_back(data, offsets[i], all[i]);
    }
    lemma_fold_collects(offsets, all, step, all.len() as int);
    assert(all.take(all.len() as int) =~= all);
}

/// Whether a bank holds nothing that is not written: no region of it holds
/// a generator.
pub open spec fn written_whole(b: WSBKView) -> bool {
    instruments_without_generators(b.instruments) && presets_without_generators(b.presets)
}

/// The three lists of a bank are well-formed, and they can be written
/// where the bank can.
pub proof fn lemma_bank_tree(b: WSBKView)
    ensures
        tree_wf(bank_tree(b)),
        bank_tree(b)->children.len() == 3,
        tree_fits(bank_tree(b)) ==> tree_fits(smls_tree(b.samples)) && tree_fits(
            lins_tree(b.instruments),
        ) && tree_fits(lprs_tree(b.presets)),
{
    lemma_identifiers();
    let kids = bank_tree(b)->children;
    let samples = smls_tree(b.samples)->children;
    assert forall|i: int| 0 <= i < samples.len() implies tree_wf(#[trigger] samples[i]) by {
        lemma_smpl_tree(b.samples[i]);
    }
    lemma_list_tree(fourcc::SMLS@, samples);
    let instruments = lins_tree(b.instruments)->children;
    assert forall|i: int| 0 <= i < instruments.len() implies tree_wf(
        #[trigger] instruments[i],
    ) by {
        lemma_inst_tree(b.instruments[i]);
    }
    lemma_list_tree(fourcc::LINS@, instruments);
    let presets = lprs_tree(b.presets)->children;
    assert forall|i: int| 0 <= i < presets.len() implies tree_wf(#[trigger] presets[i]) by {
        lemma_prst_tree(b.presets[i]);
    }
    lemma_list_tree(fourcc::LPRS@, presets);
    assert(tree_wf(kids[0]) && tree_wf(kids[1]) && tree_wf(kids[2]));
    lemma_forest_wf(kids, 3);
    if tree_fits(bank_tree(b)) {
        lemma_forest_fits(kids, 3);
        assert(tree_fits(kids[0]) && tree_fits(kids[1]) && tree_fits(kids[2]));
    }
}

/// A bank takes in its written samples as they were.
pub proof fn lemma_smls_step(data: Seq<u8>, at: int, acc: WSBKView, samples: Seq<SampleView>)
    requires
        laid_at(data, at, smls_tree(samples)),
        tree_fits(smls_tree(samples)),
    ensures
        bank_with_list(data, acc, at) == Ok::<WSBKView, WsbkError>(
            WSBKView { samples: acc.samples + samples, ..acc },
        ),
{
    lemma_smls_read_back(data, at, samples);
}

/// A bank takes in its written instruments as they were.
pub proof fn lemma_lins_step(data: Seq<u8>, at: int, acc: WSBKView, all: Seq<InstrumentView>)
    requires
        laid_at(data, at, lins_tree(all)),
        tree_fits(lins_tree(all)),
        instruments_without_generators(all),
    ensures
        bank_with_list(data, acc, at) == Ok::<WSBKView, WsbkError>(
            WSBKView { instruments: acc.instruments + all, ..acc },
        ),
{
    lemma_identifiers();
    lemma_lins_read_back(data, at, all);
}

/// A bank takes in its written presets as they were.
pub proof fn lemma_lprs_step(data: Seq<u8>, at: int, acc: WSBKView, all: Seq<PresetView>)
    requires
        laid_at(data, at, lprs_tree(all)),
        tree_fits(lprs_tree(all)),
        presets_without_generators(all),
    ensures
        bank_with_list(data, acc, at) == Ok::<WSBKView, WsbkError>(
            WSBKView { presets: acc.presets + all, ..acc },
        ),
{
    lemma_identifiers();
    lemma_lprs_read_back(data, at, all);
}

/// A bank that lies at the start of `data` is read from `data` as it was.
pub proof fn lemma_bank_read_at(data: Seq<u8>, b: WSBKView)
    requires
        laid_at(data, 0, bank_tree(b)),
        tree_fits(bank_tree(b)),
        written_whole(b),
    ensures
        parsed_bank(data) == Ok::<WSBKView, WsbkError>(b),
{
    let t = bank_tree(b);
    let kids = t->children;
    lemma_bank_tree(b);
    lemma_type_of_laid(data, 0, t);
    lemma_children_of_laid(data, 0, t);
    let offsets = kid_offsets(12, kids);
    let blank = blank_bank();
    let sampled = WSBKView { samples: b.samples, ..blank };
    let both = WSBKView { presets: Seq::empty(), ..b };
    assert(laid_at(data, offsets[0], kids[0]));
    assert(laid_at(data, offsets[1], kids[1]));
    assert(laid_at(data, offsets[2], kids[2]));
    lemma_smls_step(data, offsets[0], blank, b.samples);
    lemma_lins_step(data, offsets[1], sampled, b.instruments);
    lemma_lprs_step(data, offsets[2], both, b.presets);
    assert(blank.samples + b.samples =~= b.samples);
    assert(sampled.instruments + b.instruments =~= b.instruments);
    assert(both.presets + b.presets =~= b.presets);
    lemma_fold_three(offsets, blank, sampled, both, b, bank_step(data));
}

/// A bank that is written and read again is the bank it was, as long as it
/// can be written and holds nothing that is not written.
pub proof fn lemma_bank_read_back(b: WSBKView)
    requires
        tree_fits(bank_tree(b)),
        written_whole(b),
    ensures
        parsed_bank(tree_bytes(bank_tree(b))) == Ok::<WSBKView, WsbkError>(b),
{
    let data = tree_bytes(bank_tree(b));
    assert(data.subrange(0, data.len() as int) =~= data);
    lemma_bank_read_at(data, b);
}

} // verus!
