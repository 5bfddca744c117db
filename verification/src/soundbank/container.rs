//! The RIFF container that both bank formats are kept in, read from and
//! written to byte strings by the `riff` crate.
//!
//! A chunk is four bytes of identifier, four bytes of length and as many
//! bytes of contents, padded to an even length. A list is a chunk whose
//! contents start with four bytes of type and go on with chunks.

use crate::soundbank::bytes::{le_u32, read_u32, u32_bytes};
use std::io::{Cursor, Error};
use vstd::prelude::*;

verus! {

/// The error of the standard input and output traits, carried but never
/// looked into.
#[verifier::external_type_specification]
#[verifier::external_body]
pub struct ExIoError(Error);

/// The contents of a chunk, as `riff` writes them.
#[verifier::external_type_specification]
#[verifier::external_body]
pub struct ExChunkContents(riff::ChunkContents);

/// The identifier of a top-level container.
pub const RIFF_ID: [u8; 4] = [0x52, 0x49, 0x46, 0x46];

/// The identifier of a list.
pub const LIST_ID: [u8; 4] = [0x4c, 0x49, 0x53, 0x54];

/// Where a chunk lies and what its header says.
#[derive(Clone, Copy, Debug)]
pub struct ChunkHeader {
    /// The offset of the chunk's first byte.
    pub pos: u64,
    /// The four bytes of its identifier.
    pub id: [u8; 4],
    /// The length of its contents, without padding.
    pub len: u32,
}

/// Whether four bytes are exactly `a`, `b`, `c`, `d`.
pub fn id_is(id: &[u8; 4], a: u8, b: u8, c: u8, d: u8) -> (res: bool)
    ensures
        res == (id@ == seq![a, b, c, d]),
{
    let res = id[0] == a && id[1] == b && id[2] == c && id[3] == d;
    proof {
        if res {
            assert(id@ =~= seq![a, b, c, d]);
        } else {
            let other = seq![a, b, c, d];
            assert(id@[0] != other[0] || id@[1] != other[1] || id@[2] != other[2] || id@[3]
                != other[3]);
        }
    }
    res
}

/// Whether two identifiers are the same four bytes.
pub fn same_id(x: &[u8; 4], y: &[u8; 4]) -> (res: bool)
    ensures
        res == (x@ == y@),
{
    let res = x[0] == y[0] && x[1] == y[1] && x[2] == y[2] && x[3] == y[3];
    proof {
        if res {
            assert(x@ =~= y@);
        } else {
            assert(x@[0] != y@[0] || x@[1] != y@[1] || x@[2] != y@[2] || x@[3] != y@[3]);
        }
    }
    res
}

/// Whether `data` holds a whole chunk header at `pos`.
pub open spec fn has_header(data: Seq<u8>, pos: int) -> bool {
    0 <= pos && pos + 8 <= data.len()
}

/// The identifier of the chunk at `pos`.
pub open spec fn id_at(data: Seq<u8>, pos: int) -> Seq<u8> {
    data.subrange(pos, pos + 4)
}

/// The length that the header of the chunk at `pos` gives.
pub open spec fn len_at(data: Seq<u8>, pos: int) -> int {
    le_u32(data, pos + 4)
}

/// A length that a header gives fits in 32 bits.
pub proof fn lemma_len_at_bounds(data: Seq<u8>, pos: int)
    requires
        has_header(data, pos),
    ensures
        0 <= len_at(data, pos) < 0x1_0000_0000,
{
}

/// Whether `h` is the header of the chunk at `pos`.
pub open spec fn is_header(h: ChunkHeader, data: Seq<u8>, pos: int) -> bool {
    &&& h.pos == pos
    &&& h.id@ == id_at(data, pos)
    &&& h.len == len_at(data, pos)
}

/// The type of the list at `pos`: the first four bytes of its contents,
/// or `None` where `data` ends before them.
pub open spec fn type_at(data: Seq<u8>, pos: int) -> Option<Seq<u8>> {
    if 0 <= pos && pos + 12 <= data.len() {
        Some(data.subrange(pos + 8, pos + 12))
    } else {
        None
    }
}

/// The contents of the chunk at `pos`, or `None` where `data` ends before
/// the header or the contents do.
pub open spec fn contents_at(data: Seq<u8>, pos: int) -> Option<Seq<u8>> {
    if has_header(data, pos) && pos + 8 + len_at(data, pos) <= data.len() {
        Some(data.subrange(pos + 8, pos + 8 + len_at(data, pos)))
    } else {
        None
    }
}

/// How far `cur` lies before `end`.
pub open spec fn gap(cur: int, end: int) -> nat {
    if cur < end {
        (end - cur) as nat
    } else {
        0
    }
}

/// The offsets of the chunks that lie one behind the other from `cur` on,
/// each padded to an even length, as long as one starts before `end`; or
/// `None` where `data` ends inside the header of one of them.
pub open spec fn chunks_from(data: Seq<u8>, cur: int, end: int) -> Option<Seq<int>>
    decreases gap(cur, end),
{
    if cur >= end {
        Some(Seq::empty())
    } else if !has_header(data, cur) {
        None
    } else {
        let len = len_at(data, cur);
        match chunks_from(data, cur + 8 + len + len % 2, end) {
            None => None,
            Some(rest) => Some(seq![cur] + rest),
        }
    }
}

/// The offsets of the chunks inside the list at `pos`. They start behind
/// the list's type. One is counted as long as it starts fewer than
/// `len + 4` bytes behind `pos`, where `len` is the length that the list's
/// header gives.
pub open spec fn children_at(data: Seq<u8>, pos: int) -> Option<Seq<int>> {
    if has_header(data, pos) {
        chunks_from(data, pos + 12, pos + 4 + len_at(data, pos))
    } else {
        None
    }
}

/// What becomes of `init` as `step` takes in the first `count` of the chunks
/// at `offsets`, one after the other, up to the first that it refuses.
pub open spec fn fold_chunks<A, E>(
    offsets: Seq<int>,
    count: int,
    init: A,
    step: spec_fn(A, int) -> Result<A, E>,
) -> Result<A, E>
    decreases count,
{
    if count <= 0 {
        Ok(init)
    } else {
        match fold_chunks(offsets, count - 1, init, step) {
            Err(e) => Err(e),
            Ok(mid) => step(mid, offsets[count - 1]),
        }
    }
}

/// What becomes of `init` as `step` takes in the chunks inside the list at
/// `pos`; `io` where `data` end inside the header of one of them.
pub open spec fn fold_children<A, E>(
    data: Seq<u8>,
    pos: int,
    init: A,
    step: spec_fn(A, int) -> Result<A, E>,
    io: E,
) -> Result<A, E> {
    match children_at(data, pos) {
        None => Err(io),
        Some(offsets) => fold_chunks(offsets, offsets.len() as int, init, step),
    }
}

/// Once a chunk is refused, the same reason stands for every longer run.
pub proof fn lemma_fold_chunks_stays<A, E>(
    offsets: Seq<int>,
    count: int,
    more: int,
    init: A,
    step: spec_fn(A, int) -> Result<A, E>,
)
    requires
        count <= more,
        fold_chunks(offsets, count, init, step) is Err,
    ensures
        fold_chunks(offsets, more, init, step) == fold_chunks(offsets, count, init, step),
    decreases more - count,
{
    if count < more {
        lemma_fold_chunks_stays(offsets, count, more - 1, init, step);
    }
}

/// Whether `headers` are the headers of the chunks at `offsets`.
pub open spec fn are_headers(headers: Seq<ChunkHeader>, data: Seq<u8>, offsets: Seq<int>) -> bool {
    &&& headers.len() == offsets.len()
    &&& forall|i: int| 0 <= i < headers.len() ==> is_header(#[trigger] headers[i], data, offsets[i])
}

/// A chunk to be written: either contents, or a list of chunks with a
/// type.
#[derive(Debug)]
pub enum ChunkTree {
    Data { id: [u8; 4], data: Vec<u8> },
    Children { id: [u8; 4], ty: [u8; 4], children: Vec<ChunkTree> },
}

/// A chunk to be written, as plain values.
pub enum TreeView {
    Data { id: Seq<u8>, data: Seq<u8> },
    Children { id: Seq<u8>, ty: Seq<u8>, children: Seq<TreeView> },
}

impl ChunkTree {
    pub open spec fn view(&self) -> TreeView
        decreases self,
    {
        match self {
            ChunkTree::Data { id, data } => TreeView::Data { id: id@, data: data@ },
            ChunkTree::Children { id, ty, children } => TreeView::Children {
                id: id@,
                ty: ty@,
                children: tree_views(children@, children@.len() as int),
            },
        }
    }
}

/// The first `count` of `kids`, as plain values.
pub open spec fn tree_views(kids: Seq<ChunkTree>, count: int) -> Seq<TreeView>
    decreases kids, count,
{
    if count <= 0 || count > kids.len() {
        Seq::empty()
    } else {
        tree_views(kids, count - 1).push(kids[count - 1]@)
    }
}

/// The zero byte that follows contents of odd length.
pub open spec fn padding(len: int) -> Seq<u8> {
    if len % 2 != 0 {
        seq![0u8]
    } else {
        Seq::empty()
    }
}

/// The bytes of a chunk: identifier, length and contents. The contents of a
/// list are its type and the bytes of its chunks, one behind the other.
pub open spec fn tree_bytes(t: TreeView) -> Seq<u8>
    decreases t,
{
    match t {
        TreeView::Data { id, data } => id + u32_bytes(data.len() as int) + data + padding(
            data.len() as int,
        ),
        TreeView::Children { id, ty, children } => {
            let body = forest_bytes(children, children.len() as int);
            id + u32_bytes(4 + body.len() as int) + ty + body
        },
    }
}

/// The bytes of the first `count` of `kids`, one behind the other.
pub open spec fn forest_bytes(kids: Seq<TreeView>, count: int) -> Seq<u8>
    decreases kids, count,
{
    if count <= 0 || count > kids.len() {
        Seq::empty()
    } else {
        forest_bytes(kids, count - 1) + tree_bytes(kids[count - 1])
    }
}

/// Whether a chunk can be written: no length in it goes beyond 32 bits.
pub open spec fn tree_fits(t: TreeView) -> bool
    decreases t,
{
    match t {
        TreeView::Data { id, data } => data.len() <= u32::MAX,
        TreeView::Children { id, ty, children } => {
            &&& forest_fits(children, children.len() as int)
            &&& 4 + forest_bytes(children, children.len() as int).len() <= u32::MAX
        },
    }
}

/// Whether the first `count` of `kids` can be written.
pub open spec fn forest_fits(kids: Seq<TreeView>, count: int) -> bool
    decreases kids, count,
{
    if count <= 0 || count > kids.len() {
        true
    } else {
        forest_fits(kids, count - 1) && tree_fits(kids[count - 1])
    }
}

/// The longest contents that a chunk is written with. `riff` adds the eight
/// bytes of the header and the padding to the length of the contents in 32
/// bits, and that sum has to fit.
pub const MAX_DATA_LEN: u64 = 0xffff_fff6;

/// Whether no contents in a chunk are longer than `MAX_DATA_LEN`.
pub open spec fn tree_small(t: TreeView) -> bool
    decreases t,
{
    match t {
        TreeView::Data { id, data } => data.len() <= MAX_DATA_LEN,
        TreeView::Children { id, ty, children } => forest_small(children, children.len() as int),
    }
}

/// Whether no contents in the first `count` of `kids` are longer than
/// `MAX_DATA_LEN`.
pub open spec fn forest_small(kids: Seq<TreeView>, count: int) -> bool
    decreases kids, count,
{
    if count <= 0 || count > kids.len() {
        true
    } else {
        forest_small(kids, count - 1) && tree_small(kids[count - 1])
    }
}

/// A run of chunks is small where each of its chunks is, and only there.
pub proof fn lemma_forest_small(kids: Seq<TreeView>, count: int)
    requires
        0 <= count <= kids.len(),
    ensures
        forest_small(kids, count) <==> forall|i: int|
            0 <= i < count ==> tree_small(#[trigger] kids[i]),
    decreases count,
{
    if count > 0 {
        lemma_forest_small(kids, count - 1);
    }
}

/// Whether no contents in a chunk are longer than `MAX_DATA_LEN`.
pub fn is_small(tree: &ChunkTree) -> (res: bool)
    ensures
        res == tree_small(tree@),
    decreases tree,
{
    broadcast use vstd::std_specs::vec::axiom_vec_index_decreases;

    match tree {
        ChunkTree::Data { id, data } => data.len() as u64 <= MAX_DATA_LEN,
        ChunkTree::Children { id, ty, children } => {
            let ghost views = tree_views(children@, children@.len() as int);
            proof {
                lemma_tree_views(children@, children@.len() as int);
            }
            let mut i: usize = 0;
            while i < children.len()
                invariant
                    i <= children@.len(),
                    views.len() == children@.len(),
                    forall|k: int| 0 <= k < views.len() ==> #[trigger] views[k] == children@[k]@,
                    forall|k: int| 0 <= k < i ==> tree_small(#[trigger] views[k]),
                    tree@ == (TreeView::Children { id: id@, ty: ty@, children: views }),
                    *tree == (ChunkTree::Children { id: *id, ty: *ty, children: *children }),
                decreases children@.len() - i,
            {
                if !is_small(&children[i]) {
                    proof {
                        assert(!tree_small(views[i as int]));
                        lemma_forest_small(views, views.len() as int);
                    }
                    return false;
                }
                i += 1;
            }
            proof {
                lemma_forest_small(views, views.len() as int);
            }
            true
        },
    }
}

/// The plain values of a run of chunks are those of each chunk.
pub proof fn lemma_tree_views(kids: Seq<ChunkTree>, count: int)
    requires
        0 <= count <= kids.len(),
    ensures
        tree_views(kids, count).len() == count,
        forall|i: int| 0 <= i < count ==> #[trigger] tree_views(kids, count)[i] == kids[i]@,
    decreases count,
{
    if count > 0 {
        lemma_tree_views(kids, count - 1);
    }
}

/// The `riff::ChunkContents` that stands for a chunk: identifiers, contents
/// and chunks are handed over as they are. Nothing is claimed of it here;
/// what `riff` writes for it is said where it is written.
#[verifier::external_body]
fn to_contents(tree: &ChunkTree) -> riff::ChunkContents {
    match tree {
        ChunkTree::Data { id, data } => riff::ChunkContents::Data(
            riff::ChunkId { value: *id },
            data.clone(),
        ),
        ChunkTree::Children { id, ty, children } => riff::ChunkContents::Children(
            riff::ChunkId { value: *id },
            riff::ChunkId { value: *ty },
            children.iter().map(to_contents).collect(),
        ),
    }
}

/// `riff::ChunkContents::write` into an empty cursor: the bytes of the
/// chunk, and a failure where a length in it goes beyond 32 bits. Contents
/// longer than `MAX_DATA_LEN` are left out: for them `riff` adds header
/// and padding to the length beyond 32 bits.
#[verifier::external_body]
pub(crate) fn write_tree(tree: &ChunkTree) -> (res: Result<Vec<u8>, Error>)
    requires
        tree_small(tree@),
    ensures
        res is Ok <==> tree_fits(tree@),
        res matches Ok(bytes) ==> bytes@ == tree_bytes(tree@),
{
    let mut stream = Cursor::new(Vec::new());
    to_contents(tree).write(&mut stream)?;
    Ok(stream.into_inner())
}

/// `riff::Chunk::read` and then `riff::Chunk::read_type`, on a cursor over
/// `data`: the four bytes behind the header of the chunk at `pos`, and a
/// failure where `data` ends before them.
#[verifier::external_body]
pub(crate) fn read_type(data: &[u8], pos: u64) -> (res: Result<[u8; 4], Error>)
    ensures
        res is Ok <==> type_at(data@, pos as int) is Some,
        res matches Ok(t) ==> Some(t@) == type_at(data@, pos as int),
{
    let mut stream = Cursor::new(data);
    let chunk = riff::Chunk::read(&mut stream, pos)?;
    Ok(chunk.read_type(&mut stream)?.value)
}

/// `riff::Chunk::read` and then `riff::Chunk::read_contents`, on a cursor
/// over `data`: as many bytes behind the header of the chunk at `pos` as the
/// header says, and a failure where `data` ends before them.
#[verifier::external_body]
fn read_contents(data: &[u8], pos: u64) -> (res: Result<Vec<u8>, Error>)
    ensures
        res is Ok <==> contents_at(data@, pos as int) is Some,
        res matches Ok(c) ==> Some(c@) == contents_at(data@, pos as int),
{
    let mut stream = Cursor::new(data);
    let chunk = riff::Chunk::read(&mut stream, pos)?;
    chunk.read_contents(&mut stream)
}

/// The contents of the chunk at `pos`, or none where `data` ends before
/// them. The contents are only asked for once they are known to lie inside
/// `data`, so that no memory is set aside for a length that a broken file
/// claims.
pub fn chunk_contents(data: &[u8], pos: u64) -> (res: Option<Vec<u8>>)
    ensures
        res is Some <==> contents_at(data@, pos as int) is Some,
        res matches Some(c) ==> Some(c@) == contents_at(data@, pos as int),
{
    let total: u64 = data.len() as u64;
    if pos > total || total - pos < 8 {
        return None;
    }
    let len: u64 = read_u32(data, (pos + 4) as usize) as u64;
    if total - pos - 8 < len {
        return None;
    }
    match read_contents(data, pos) {
        Ok(contents) => Some(contents),
        Err(_) => None,
    }
}

/// `riff::Chunk::read` and then `riff::Chunk::iter`, on a cursor over
/// `data`, walked up to its end or to its first failure: the headers of the
/// chunks inside the list at `pos`. The positions are 64-bit sums of
/// offsets and lengths, which cannot overflow for any byte string that
/// fits into memory.
#[verifier::external_body]
pub(crate) fn read_children(data: &[u8], pos: u64) -> (res: Result<Vec<ChunkHeader>, Error>)
    requires
        data@.len() <= isize::MAX,
    ensures
        res is Ok <==> children_at(data@, pos as int) is Some,
        res matches Ok(headers) ==> are_headers(
            headers@,
            data@,
            children_at(data@, pos as int)->0,
        ),
{
    let mut stream = Cursor::new(data);
    let chunk = riff::Chunk::read(&mut stream, pos)?;
    chunk.iter(&mut stream).map(
        |child| child.map(|c| ChunkHeader { pos: c.offset(), id: c.id().value, len: c.len() }),
    ).collect()
}

/// Every chunk that is counted starts at or behind `cur`, before `end`, and
/// has its header inside `data`.
pub proof fn lemma_chunks_from_bounds(data: Seq<u8>, cur: int, end: int)
    requires
        chunks_from(data, cur, end) is Some,
    ensures
        forall|i: int|
            0 <= i < chunks_from(data, cur, end)->0.len() ==> {
                let at = #[trigger] chunks_from(data, cur, end)->0[i];
                cur <= at < end && has_header(data, at)
            },
    decreases gap(cur, end),
{
    if cur < end {
        let len = len_at(data, cur);
        let next = cur + 8 + len + len % 2;
        lemma_len_at_bounds(data, cur);
        lemma_chunks_from_bounds(data, next, end);
        let rest = chunks_from(data, next, end)->0;
        let all = chunks_from(data, cur, end)->0;
        assert(all =~= seq![cur] + rest);
        assert forall|i: int| 0 <= i < all.len() implies {
            let at = #[trigger] all[i];
            cur <= at < end && has_header(data, at)
        } by {
            if i > 0 {
                assert(all[i] == rest[i - 1]);
            }
        }
    }
}

} // verus!
