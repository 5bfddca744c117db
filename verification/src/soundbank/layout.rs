//! Where the chunks of a written container lie, and what reading finds
//! there: the link between writing a chunk and reading it back.

use crate::soundbank::bytes::{le_u32, lemma_read_u32_at, u32_bytes};
use crate::soundbank::container::{
    children_at,
    chunks_from,
    contents_at,
    forest_bytes,
    forest_fits,
    forest_small,
    has_header,
    id_at,
    len_at,
    padding,
    tree_bytes,
    tree_fits,
    tree_small,
    type_at,
    TreeView,
};
use vstd::prelude::*;

verus! {

/// Whether every identifier and type in a chunk is four bytes long.
pub open spec fn tree_wf(t: TreeView) -> bool
    decreases t,
{
    match t {
        TreeView::Data { id, data } => id.len() == 4,
        TreeView::Children { id, ty, children } => {
            &&& id.len() == 4
            &&& ty.len() == 4
            &&& forest_wf(children, children.len() as int)
        },
    }
}

/// Whether the first `count` of `kids` are well-formed.
pub open spec fn forest_wf(kids: Seq<TreeView>, count: int) -> bool
    decreases kids, count,
{
    if count <= 0 || count > kids.len() {
        true
    } else {
        forest_wf(kids, count - 1) && tree_wf(kids[count - 1])
    }
}

/// Whether the bytes of `t` lie in `data` from `at` on.
pub open spec fn laid_at(data: Seq<u8>, at: int, t: TreeView) -> bool {
    &&& 0 <= at
    &&& at + tree_bytes(t).len() <= data.len()
    &&& data.subrange(at, at + tree_bytes(t).len()) == tree_bytes(t)
}

/// Where chunk `i` of a run lies that starts at `start`.
pub open spec fn kid_offset(start: int, kids: Seq<TreeView>, i: int) -> int {
    start + forest_bytes(kids, i).len()
}

/// Where the chunks of a run lie that starts at `start`.
pub open spec fn kid_offsets(start: int, kids: Seq<TreeView>) -> Seq<int> {
    Seq::new(kids.len(), |i: int| kid_offset(start, kids, i))
}

/// What the first four bytes of the contents of a chunk hold, once it is
/// written: the type of a list.
pub open spec fn tree_len(t: TreeView) -> int {
    match t {
        TreeView::Data { id, data } => data.len() as int,
        TreeView::Children { id, ty, children } => 4 + forest_bytes(
            children,
            children.len() as int,
        ).len() as int,
    }
}

/// The identifier of a chunk.
pub open spec fn tree_id(t: TreeView) -> Seq<u8> {
    match t {
        TreeView::Data { id, data } => id,
        TreeView::Children { id, ty, children } => id,
    }
}

/// A well-formed chunk takes eight bytes and its length, made even.
pub proof fn lemma_tree_size(t: TreeView)
    requires
        tree_wf(t),
    ensures
        tree_bytes(t).len() == 8 + tree_len(t) + tree_len(t) % 2,
        tree_bytes(t).len() % 2 == 0,
        tree_len(t) >= 0,
    decreases t,
{
    match t {
        TreeView::Data { id, data } => {},
        TreeView::Children { id, ty, children } => {
            lemma_forest_size(children, children.len() as int);
        },
    }
}

/// A run of well-formed chunks takes an even number of bytes, and grows
/// with every chunk by eight bytes or more.
pub proof fn lemma_forest_size(kids: Seq<TreeView>, count: int)
    requires
        0 <= count <= kids.len(),
        forest_wf(kids, count),
    ensures
        forest_bytes(kids, count).len() % 2 == 0,
        forest_bytes(kids, count).len() >= 8 * count,
        forall|i: int| 0 <= i < count ==> tree_wf(#[trigger] kids[i]),
        forall|i: int|
            0 <= i <= count ==> #[trigger] forest_bytes(kids, i).len() <= forest_bytes(
                kids,
                count,
            ).len(),
    decreases kids, count,
{
    if count > 0 {
        lemma_forest_size(kids, count - 1);
        lemma_tree_size(kids[count - 1]);
    }
}

/// A run of well-formed chunks is well-formed.
pub proof fn lemma_forest_wf(kids: Seq<TreeView>, count: int)
    requires
        0 <= count <= kids.len(),
        forall|i: int| 0 <= i < count ==> tree_wf(#[trigger] kids[i]),
    ensures
        forest_wf(kids, count),
    decreases count,
{
    if count > 0 {
        lemma_forest_wf(kids, count - 1);
    }
}

/// A run of chunks that can be written holds only chunks that can.
pub proof fn lemma_forest_fits(kids: Seq<TreeView>, count: int)
    requires
        0 <= count <= kids.len(),
        forest_fits(kids, count),
    ensures
        forall|i: int| 0 <= i < count ==> tree_fits(#[trigger] kids[i]),
    decreases kids, count,
{
    if count > 0 {
        lemma_forest_fits(kids, count - 1);
    }
}

/// The chunks of a run that can be written inside a list hold no contents
/// longer than `MAX_DATA_LEN`: each of them takes eight bytes more than its
/// contents, and the list has to fit in 32 bits with its type.
pub proof fn lemma_fitting_forest_is_small(kids: Seq<TreeView>, count: int)
    requires
        0 <= count <= kids.len(),
        forest_wf(kids, count),
        forest_fits(kids, count),
        4 + forest_bytes(kids, count).len() <= u32::MAX,
    ensures
        forest_small(kids, count),
    decreases kids, count,
{
    if count > 0 {
        let kid = kids[count - 1];
        assert(forest_wf(kids, count - 1) && tree_wf(kid));
        assert(forest_fits(kids, count - 1) && tree_fits(kid));
        assert(forest_bytes(kids, count) == forest_bytes(kids, count - 1) + tree_bytes(kid));
        lemma_fitting_forest_is_small(kids, count - 1);
        lemma_tree_size(kid);
        match kid {
            TreeView::Data { id, data } => {
                assert(tree_small(kid));
            },
            TreeView::Children { id, ty, children } => {
                assert(forest_wf(children, children.len() as int));
                assert(forest_fits(children, children.len() as int));
                lemma_fitting_forest_is_small(children, children.len() as int);
                assert(tree_small(kid));
            },
        }
    }
}

/// A list that can be written holds no contents longer than `MAX_DATA_LEN`.
pub proof fn lemma_fitting_list_is_small(t: TreeView)
    requires
        tree_wf(t),
        tree_fits(t),
        t is Children,
    ensures
        tree_small(t),
{
    lemma_fitting_forest_is_small(t->children, t->children.len() as int);
}

/// Reading finds the header of a chunk that lies in `data`: its
/// identifier and its length.
pub proof fn lemma_header_of_laid(data: Seq<u8>, at: int, t: TreeView)
    requires
        tree_wf(t),
        tree_fits(t),
        laid_at(data, at, t),
    ensures
        has_header(data, at),
        id_at(data, at) == tree_id(t),
        len_at(data, at) == tree_len(t),
        0 <= tree_len(t) <= u32::MAX,
        at + 8 + tree_len(t) <= data.len(),
{
    lemma_tree_size(t);
    let bytes = tree_bytes(t);
    let len = tree_len(t);
    assert(bytes.subrange(0, 4) =~= tree_id(t));
    assert(bytes.subrange(4, 8) =~= u32_bytes(len));
    assert(data.subrange(at, at + 4) =~= bytes.subrange(0, 4));
    assert(data.subrange(at + 4, at + 8) =~= bytes.subrange(4, 8));
    lemma_read_u32_at(data, at + 4, len);
}

/// Reading finds the contents of a chunk of contents that lies in `data`.
pub proof fn lemma_contents_of_laid(data: Seq<u8>, at: int, id: Seq<u8>, contents: Seq<u8>)
    requires
        id.len() == 4,
        contents.len() <= u32::MAX,
        laid_at(data, at, TreeView::Data { id, data: contents }),
    ensures
        has_header(data, at),
        id_at(data, at) == id,
        len_at(data, at) == contents.len(),
        contents_at(data, at) == Some(contents),
{
    let t = TreeView::Data { id, data: contents };
    lemma_header_of_laid(data, at, t);
    let bytes = tree_bytes(t);
    assert(bytes.subrange(8, 8 + contents.len() as int) =~= contents);
    assert(data.subrange(at + 8, at + 8 + contents.len() as int) =~= bytes.subrange(
        8,
        8 + contents.len() as int,
    ));
}

/// The chunks of a list that lies in `data` lie in `data` too, one behind
/// the other behind the type of the list.
pub proof fn lemma_kids_of_laid(data: Seq<u8>, at: int, t: TreeView, i: int)
    requires
        tree_wf(t),
        laid_at(data, at, t),
        t is Children,
        0 <= i < t->children.len(),
    ensures
        laid_at(data, kid_offset(at + 12, t->children, i), t->children[i]),
    decreases t->children.len() - i,
{
    let kids = t->children;
    let n = kids.len() as int;
    let body = forest_bytes(kids, n);
    let bytes = tree_bytes(t);
    lemma_forest_size(kids, n);
    lemma_forest_prefix(kids, i + 1, n);
    let before = forest_bytes(kids, i);
    let kid = tree_bytes(kids[i]);
    assert(forest_bytes(kids, i + 1) == before + kid);
    let upto = forest_bytes(kids, i + 1);
    assert(body.subrange(0, upto.len() as int) == upto);
    assert(bytes.subrange(12, 12 + body.len() as int) =~= body);
    let from = at + 12 + before.len();
    assert(data.subrange(from, from + kid.len()) =~= kid) by {
        assert forall|k: int| 0 <= k < kid.len() implies data.subrange(
            from,
            from + kid.len(),
        )[k] == kid[k] by {
            assert(upto[before.len() + k] == kid[k]);
            assert(body.subrange(0, upto.len() as int)[before.len() + k] == body[before.len()
                + k]);
            assert(bytes.subrange(12, 12 + body.len() as int)[before.len() + k] == bytes[12
                + before.len() + k]);
            assert(data.subrange(at, at + bytes.len())[12 + before.len() + k] == data[at + 12
                + before.len() + k]);
        }
    }
}

/// The bytes of the first chunks of a run stand at the start of the bytes
/// of the whole run.
pub proof fn lemma_forest_prefix(kids: Seq<TreeView>, count: int, more: int)
    requires
        0 <= count <= more <= kids.len(),
    ensures
        forest_bytes(kids, count).len() <= forest_bytes(kids, more).len(),
        forest_bytes(kids, more).subrange(0, forest_bytes(kids, count).len() as int)
            == forest_bytes(kids, count),
    decreases more - count,
{
    if count < more {
        lemma_forest_prefix(kids, count, more - 1);
        let shorter = forest_bytes(kids, more - 1);
        let longer = forest_bytes(kids, more);
        assert(longer == shorter + tree_bytes(kids[more - 1]));
        assert(longer.subrange(0, forest_bytes(kids, count).len() as int) =~= shorter.subrange(
            0,
            forest_bytes(kids, count).len() as int,
        ));
    } else {
        assert(forest_bytes(kids, more).subrange(0, forest_bytes(kids, count).len() as int)
            =~= forest_bytes(kids, count));
    }
}

/// Reading finds the type of a list that lies in `data`.
pub proof fn lemma_type_of_laid(data: Seq<u8>, at: int, t: TreeView)
    requires
        tree_wf(t),
        tree_fits(t),
        laid_at(data, at, t),
        t is Children,
    ensures
        type_at(data, at) == Some(t->ty),
{
    lemma_header_of_laid(data, at, t);
    let bytes = tree_bytes(t);
    assert(bytes.subrange(8, 12) =~= t->ty);
    assert(data.subrange(at + 8, at + 12) =~= bytes.subrange(8, 12));
}

/// The walk from chunk `from` of a run on finds the chunks from there to
/// the end of the run, the walk being bounded four bytes before that end:
/// a chunk is eight bytes or longer, so none of them starts behind the
/// bound.
pub proof fn lemma_walk_finds_kids(data: Seq<u8>, start: int, kids: Seq<TreeView>, from: int)
    requires
        0 <= from <= kids.len(),
        forest_wf(kids, kids.len() as int),
        forest_fits(kids, kids.len() as int),
        forall|i: int| 0 <= i < kids.len() ==> laid_at(data, kid_offset(start, kids, i), kids[i]),
    ensures
        chunks_from(
            data,
            kid_offset(start, kids, from),
            start + forest_bytes(kids, kids.len() as int).len() - 4,
        ) == Some(kid_offsets(start, kids).skip(from)),
    decreases kids.len() - from,
{
    let n = kids.len() as int;
    let end = start + forest_bytes(kids, n).len() - 4;
    let cur = kid_offset(start, kids, from);
    lemma_forest_size(kids, n);
    lemma_forest_fits(kids, n);
    if from == n {
        assert(kid_offsets(start, kids).skip(from) =~= Seq::<int>::empty());
    } else {
        let kid = kids[from];
        lemma_tree_size(kid);
        lemma_header_of_laid(data, cur, kid);
        lemma_forest_prefix(kids, from + 1, n);
        assert(forest_bytes(kids, from + 1) == forest_bytes(kids, from) + tree_bytes(kid));
        let len = len_at(data, cur);
        assert(cur + 8 + len + len % 2 == kid_offset(start, kids, from + 1));
        lemma_walk_finds_kids(data, start, kids, from + 1);
        assert(cur < end);
        assert(kid_offsets(start, kids).skip(from) =~= seq![cur] + kid_offsets(start, kids).skip(
            from + 1,
        ));
    }
}

/// Reading finds the chunks of a list that lies in `data`, each where it
/// was written.
pub proof fn lemma_children_of_laid(data: Seq<u8>, at: int, t: TreeView)
    requires
        tree_wf(t),
        tree_fits(t),
        laid_at(data, at, t),
        t is Children,
    ensures
        children_at(data, at) == Some(kid_offsets(at + 12, t->children)),
        forall|i: int|
            0 <= i < t->children.len() ==> laid_at(
                data,
                kid_offset(at + 12, t->children, i),
                #[trigger] t->children[i],
            ),
        forall|i: int| 0 <= i < t->children.len() ==> tree_wf(#[trigger] t->children[i]),
        forall|i: int| 0 <= i < t->children.len() ==> tree_fits(#[trigger] t->children[i]),
{
    let kids = t->children;
    let n = kids.len() as int;
    lemma_header_of_laid(data, at, t);
    lemma_forest_size(kids, n);
    lemma_forest_fits(kids, n);
    assert forall|i: int| 0 <= i < kids.len() implies laid_at(
        data,
        kid_offset(at + 12, kids, i),
        #[trigger] kids[i],
    ) by {
        lemma_kids_of_laid(data, at, t, i);
    }
    lemma_walk_finds_kids(data, at + 12, kids, 0);
    assert(kid_offsets(at + 12, kids).skip(0) =~= kid_offsets(at + 12, kids));
    assert(forest_bytes(kids, 0).len() == 0);
}

} // verus!
