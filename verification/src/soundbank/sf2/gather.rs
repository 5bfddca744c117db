//! The walk through the container of a SoundFont bank, which gathers the
//! texts of the `INFO` list, the place of the sample data in the `sdta`
//! list and the tables of the `pdta` list.

use crate::soundbank::bytes::{le_u16, read_u16};
use crate::soundbank::container::{
    are_headers,
    children_at,
    contents_at,
    fold_children,
    fold_chunks,
    id_at,
    id_is,
    is_header,
    lemma_fold_chunks_stays,
    read_children,
    chunk_contents,
    read_type,
    type_at,
    ChunkHeader,
};
use crate::soundbank::sf2::error::{record_len, SF2Error, SF2ErrorKind, SF2Table};
use crate::soundbank::sf2::structure::SF2Info;
use crate::soundbank::text::text_of;
use vstd::prelude::*;
use vstd::utf8::{decode_utf8, valid_utf8};

verus! {

/// The type of the list that describes the bank.
pub const INFO: [u8; 4] = [0x49, 0x4e, 0x46, 0x4f];

/// The type of the list that holds the sample data.
pub const SDTA: [u8; 4] = [0x73, 0x64, 0x74, 0x61];

/// The type of the list that holds the tables.
pub const PDTA: [u8; 4] = [0x70, 0x64, 0x74, 0x61];

/// What the walk has gathered, as plain values.
pub struct GatheredView {
    /// Major and minor version of the format.
    pub sf_version: Seq<u16>,
    /// Major and minor version of the sound ROM.
    pub rom_version: Seq<u16>,
    /// The nine texts, in the order of the fields of `SF2Info`.
    pub texts: Seq<Seq<char>>,
    /// The offset of the last `smpl` chunk.
    pub smpl: Option<int>,
    /// The nine tables, in the order of `SF2Table`.
    pub tables: Seq<Seq<u8>>,
}

/// What the walk has gathered.
#[derive(Debug)]
pub struct Gathered {
    pub info: SF2Info,
    pub smpl: Option<u64>,
    pub tables: Vec<Vec<u8>>,
}

impl Gathered {
    pub open spec fn view(&self) -> GatheredView {
        GatheredView {
            sf_version: self.info.sf_version@,
            rom_version: self.info.rom_version@,
            texts: self.info.texts(),
            smpl: match self.smpl {
                Some(pos) => Some(pos as int),
                None => None,
            },
            tables: Seq::new(9, |t: int| self.tables@[t]@),
        }
    }

    /// There are nine tables.
    pub open spec fn wf(&self) -> bool {
        self.tables@.len() == 9
    }
}

/// What has been gathered before the walk starts: nothing.
pub open spec fn nothing() -> GatheredView {
    GatheredView {
        sf_version: seq![0u16, 0u16],
        rom_version: seq![0u16, 0u16],
        texts: Seq::new(9, |i: int| Seq::<char>::empty()),
        smpl: None,
        tables: Seq::new(9, |t: int| Seq::<u8>::empty()),
    }
}

/// The place of a table among the nine.
pub open spec fn table_index(table: SF2Table) -> int {
    match table {
        SF2Table::Shdr => 0,
        SF2Table::Inst => 1,
        SF2Table::Ibag => 2,
        SF2Table::Imod => 3,
        SF2Table::Igen => 4,
        SF2Table::Phdr => 5,
        SF2Table::Pbag => 6,
        SF2Table::Pmod => 7,
        SF2Table::Pgen => 8,
    }
}

/// The table that a chunk of the `pdta` list holds, going by its
/// identifier.
pub open spec fn table_of_id(id: Seq<u8>) -> Option<SF2Table> {
    if id == seq![0x73u8, 0x68u8, 0x64u8, 0x72u8] {
        Some(SF2Table::Shdr)
    } else if id == seq![0x69u8, 0x6eu8, 0x73u8, 0x74u8] {
        Some(SF2Table::Inst)
    } else if id == seq![0x69u8, 0x62u8, 0x61u8, 0x67u8] {
        Some(SF2Table::Ibag)
    } else if id == seq![0x69u8, 0x6du8, 0x6fu8, 0x64u8] {
        Some(SF2Table::Imod)
    } else if id == seq![0x69u8, 0x67u8, 0x65u8, 0x6eu8] {
        Some(SF2Table::Igen)
    } else if id == seq![0x70u8, 0x68u8, 0x64u8, 0x72u8] {
        Some(SF2Table::Phdr)
    } else if id == seq![0x70u8, 0x62u8, 0x61u8, 0x67u8] {
        Some(SF2Table::Pbag)
    } else if id == seq![0x70u8, 0x6du8, 0x6fu8, 0x64u8] {
        Some(SF2Table::Pmod)
    } else if id == seq![0x70u8, 0x67u8, 0x65u8, 0x6eu8] {
        Some(SF2Table::Pgen)
    } else {
        None
    }
}

/// The text that a chunk of the `INFO` list adds to, going by its
/// identifier, as its place among the nine: `isng`, `INAM`, `irom`, `ICRD`,
/// `IENG`, `IPRD`, `ICOP`, `ICMT`, `ISFT`.
pub open spec fn text_of_id(id: Seq<u8>) -> Option<int> {
    if id == seq![0x69u8, 0x73u8, 0x6eu8, 0x67u8] {
        Some(0)
    } else if id == seq![0x49u8, 0x4eu8, 0x41u8, 0x4du8] {
        Some(1)
    } else if id == seq![0x69u8, 0x72u8, 0x6fu8, 0x6du8] {
        Some(2)
    } else if id == seq![0x49u8, 0x43u8, 0x52u8, 0x44u8] {
        Some(3)
    } else if id == seq![0x49u8, 0x45u8, 0x4eu8, 0x47u8] {
        Some(4)
    } else if id == seq![0x49u8, 0x50u8, 0x52u8, 0x44u8] {
        Some(5)
    } else if id == seq![0x49u8, 0x43u8, 0x4fu8, 0x50u8] {
        Some(6)
    } else if id == seq![0x49u8, 0x43u8, 0x4du8, 0x54u8] {
        Some(7)
    } else if id == seq![0x49u8, 0x53u8, 0x46u8, 0x54u8] {
        Some(8)
    } else {
        None
    }
}

/// The identifier `ifil` of the format version.
pub open spec fn ifil() -> Seq<u8> {
    seq![0x69u8, 0x66u8, 0x69u8, 0x6cu8]
}

/// The identifier `iver` of the ROM version.
pub open spec fn iver() -> Seq<u8> {
    seq![0x69u8, 0x76u8, 0x65u8, 0x72u8]
}

/// The identifier `smpl` of the sample data.
pub open spec fn smpl() -> Seq<u8> {
    seq![0x73u8, 0x6du8, 0x70u8, 0x6cu8]
}

/// The two numbers of a version chunk.
pub open spec fn version_of(contents: Seq<u8>) -> Seq<u16> {
    seq![le_u16(contents, 0) as u16, le_u16(contents, 2) as u16]
}

/// What a chunk of the `INFO` list adds. A version chunk sets its version,
/// and must hold four bytes. A text chunk adds its text behind what the
/// same text held before. Any other chunk adds nothing and is not read.
pub open spec fn gather_info(data: Seq<u8>, at: int, acc: GatheredView) -> Result<
    GatheredView,
    SF2ErrorKind,
> {
    let id = id_at(data, at);
    if !valid_utf8(id) {
        Err(SF2ErrorKind::InvalidChunkId)
    } else if id == ifil() || id == iver() {
        match contents_at(data, at) {
            None => Err(SF2ErrorKind::Io),
            Some(contents) => if contents.len() < 4 {
                Err(SF2ErrorKind::TruncatedVersion)
            } else if id == ifil() {
                Ok(GatheredView { sf_version: version_of(contents), ..acc })
            } else {
                Ok(GatheredView { rom_version: version_of(contents), ..acc })
            },
        }
    } else {
        match text_of_id(id) {
            None => Ok(acc),
            Some(which) => match contents_at(data, at) {
                None => Err(SF2ErrorKind::Io),
                Some(contents) => if !valid_utf8(contents) {
                    Err(SF2ErrorKind::InvalidUtf8)
                } else {
                    Ok(
                        GatheredView {
                            texts: acc.texts.update(
                                which,
                                acc.texts[which] + decode_utf8(contents),
                            ),
                            ..acc
                        },
                    )
                },
            },
        }
    }
}

/// What a chunk of the `pdta` list adds. Its contents are read whatever it
/// is. Where it is one of the nine tables, its length must be a multiple
/// of the record length, and it replaces what the table held before.
pub open spec fn gather_table(data: Seq<u8>, at: int, acc: GatheredView) -> Result<
    GatheredView,
    SF2ErrorKind,
> {
    let id = id_at(data, at);
    match contents_at(data, at) {
        None => Err(SF2ErrorKind::Io),
        Some(contents) => if !valid_utf8(id) {
            Err(SF2ErrorKind::InvalidChunkId)
        } else {
            match table_of_id(id) {
                None => Ok(acc),
                Some(table) => if contents.len() as int % record_len(table) != 0 {
                    Err(SF2ErrorKind::InvalidLength(table))
                } else {
                    Ok(
                        GatheredView {
                            tables: acc.tables.update(table_index(table), contents),
                            ..acc
                        },
                    )
                },
            }
        },
    }
}

/// What the chunk at `at` adds, inside a list of type `ty`. A chunk of the
/// `sdta` list named `smpl` is remembered in place of an earlier one. A
/// chunk of a list of any other type than the three adds nothing, whatever
/// its identifier.
pub open spec fn gather_chunk(data: Seq<u8>, ty: Seq<u8>, at: int, acc: GatheredView) -> Result<
    GatheredView,
    SF2ErrorKind,
> {
    if ty == INFO@ {
        gather_info(data, at, acc)
    } else if ty == SDTA@ {
        if !valid_utf8(id_at(data, at)) {
            Err(SF2ErrorKind::InvalidChunkId)
        } else if id_at(data, at) == smpl() {
            Ok(GatheredView { smpl: Some(at), ..acc })
        } else {
            Ok(acc)
        }
    } else if ty == PDTA@ {
        gather_table(data, at, acc)
    } else {
        Ok(acc)
    }
}

/// Taking in one chunk of a list of type `ty`, as a step of the walk.
pub open spec fn chunk_step(data: Seq<u8>, ty: Seq<u8>) -> spec_fn(GatheredView, int) -> Result<
    GatheredView,
    SF2ErrorKind,
> {
    |acc: GatheredView, at: int| gather_chunk(data, ty, at, acc)
}

/// What the list at `at` adds: what its chunks add, one after the other,
/// up to the first that is refused. Its type must be text, whatever it is.
pub open spec fn gather_list(data: Seq<u8>, at: int, acc: GatheredView) -> Result<
    GatheredView,
    SF2ErrorKind,
> {
    match type_at(data, at) {
        None => Err(SF2ErrorKind::Io),
        Some(ty) => if !valid_utf8(ty) {
            Err(SF2ErrorKind::InvalidChunkId)
        } else {
            fold_children(data, at, acc, chunk_step(data, ty), SF2ErrorKind::Io)
        },
    }
}

/// Taking in one list, as a step of the walk.
pub open spec fn list_step(data: Seq<u8>) -> spec_fn(GatheredView, int) -> Result<
    GatheredView,
    SF2ErrorKind,
> {
    |acc: GatheredView, at: int| gather_list(data, at, acc)
}

/// What the walk through `data` gathers: what the lists inside the chunk at
/// the start of `data` add to nothing, one after the other, up to the first
/// that is refused.
pub open spec fn gathered(data: Seq<u8>) -> Result<GatheredView, SF2ErrorKind> {
    fold_children(data, 0, nothing(), list_step(data), SF2ErrorKind::Io)
}

/// Whether four bytes are text.
pub fn id_is_text(id: &[u8; 4]) -> (res: bool)
    ensures
        res == valid_utf8(id@),
{
    let mut bytes: Vec<u8> = Vec::new();
    bytes.push(id[0]);
    bytes.push(id[1]);
    bytes.push(id[2]);
    bytes.push(id[3]);
    assert(bytes@ =~= id@);
    text_of(bytes).is_some()
}

/// The table that goes by an identifier.
pub fn table_for(id: &[u8; 4]) -> (res: Option<SF2Table>)
    ensures
        res == table_of_id(id@),
{
    if id_is(id, 0x73, 0x68, 0x64, 0x72) {
        Some(SF2Table::Shdr)
    } else if id_is(id, 0x69, 0x6e, 0x73, 0x74) {
        Some(SF2Table::Inst)
    } else if id_is(id, 0x69, 0x62, 0x61, 0x67) {
        Some(SF2Table::Ibag)
    } else if id_is(id, 0x69, 0x6d, 0x6f, 0x64) {
        Some(SF2Table::Imod)
    } else if id_is(id, 0x69, 0x67, 0x65, 0x6e) {
        Some(SF2Table::Igen)
    } else if id_is(id, 0x70, 0x68, 0x64, 0x72) {
        Some(SF2Table::Phdr)
    } else if id_is(id, 0x70, 0x62, 0x61, 0x67) {
        Some(SF2Table::Pbag)
    } else if id_is(id, 0x70, 0x6d, 0x6f, 0x64) {
        Some(SF2Table::Pmod)
    } else if id_is(id, 0x70, 0x67, 0x65, 0x6e) {
        Some(SF2Table::Pgen)
    } else {
        None
    }
}

/// The place of the text that goes by an identifier.
pub fn text_for(id: &[u8; 4]) -> (res: Option<usize>)
    ensures
        match res {
            Some(which) => text_of_id(id@) == Some(which as int) && which < 9,
            None => text_of_id(id@) is None,
        },
{
    if id_is(id, 0x69, 0x73, 0x6e, 0x67) {
        Some(0)
    } else if id_is(id, 0x49, 0x4e, 0x41, 0x4d) {
        Some(1)
    } else if id_is(id, 0x69, 0x72, 0x6f, 0x6d) {
        Some(2)
    } else if id_is(id, 0x49, 0x43, 0x52, 0x44) {
        Some(3)
    } else if id_is(id, 0x49, 0x45, 0x4e, 0x47) {
        Some(4)
    } else if id_is(id, 0x49, 0x50, 0x52, 0x44) {
        Some(5)
    } else if id_is(id, 0x49, 0x43, 0x4f, 0x50) {
        Some(6)
    } else if id_is(id, 0x49, 0x43, 0x4d, 0x54) {
        Some(7)
    } else if id_is(id, 0x49, 0x53, 0x46, 0x54) {
        Some(8)
    } else {
        None
    }
}

/// The place of a table among the nine.
pub fn table_slot(table: SF2Table) -> (res: usize)
    ensures
        res == table_index(table),
        res < 9,
{
    match table {
        SF2Table::Shdr => 0,
        SF2Table::Inst => 1,
        SF2Table::Ibag => 2,
        SF2Table::Imod => 3,
        SF2Table::Igen => 4,
        SF2Table::Phdr => 5,
        SF2Table::Pbag => 6,
        SF2Table::Pmod => 7,
        SF2Table::Pgen => 8,
    }
}

/// The record length of a table.
pub fn record_length(table: SF2Table) -> (res: usize)
    ensures
        res == record_len(table),
        res > 0,
{
    match table {
        SF2Table::Shdr => 46,
        SF2Table::Inst => 22,
        SF2Table::Ibag => 4,
        SF2Table::Imod => 10,
        SF2Table::Igen => 4,
        SF2Table::Phdr => 38,
        SF2Table::Pbag => 4,
        SF2Table::Pmod => 10,
        SF2Table::Pgen => 4,
    }
}

/// Adds `text` behind one of the nine texts.
pub fn push_text(info: &mut SF2Info, which: usize, text: &str)
    requires
        which < 9,
    ensures
        final(info).texts() == old(info).texts().update(
            which as int,
            old(info).texts()[which as int] + text@,
        ),
        final(info).sf_version == old(info).sf_version,
        final(info).rom_version == old(info).rom_version,
{
    if which == 0 {
        info.target_sound_engine.push_str(text);
    } else if which == 1 {
        info.bank_name.push_str(text);
    } else if which == 2 {
        info.rom_name.push_str(text);
    } else if which == 3 {
        info.created_date.push_str(text);
    } else if which == 4 {
        info.engineers.push_str(text);
    } else if which == 5 {
        info.target_hardware.push_str(text);
    } else if which == 6 {
        info.copyright.push_str(text);
    } else if which == 7 {
        info.comments.push_str(text);
    } else {
        info.created_software.push_str(text);
    }
    assert(info.texts() =~= old(info).texts().update(
        which as int,
        old(info).texts()[which as int] + text@,
    ));
}

/// The start of a walk: nothing gathered.
pub fn start() -> (res: Gathered)
    ensures
        res.wf(),
        res@ == nothing(),
{
    let mut tables: Vec<Vec<u8>> = Vec::new();
    let mut t: usize = 0;
    while t < 9
        invariant
            t <= 9,
            tables@.len() == t,
            forall|k: int| 0 <= k < t ==> (#[trigger] tables@[k])@ == Seq::<u8>::empty(),
        decreases 9 - t,
    {
        tables.push(Vec::new());
        t += 1;
    }
    let res = Gathered { info: SF2Info::new(), smpl: None, tables };
    assert(res@.tables =~= nothing().tables);
    res
}

/// Adds what a chunk of the `INFO` list adds.
pub fn add_info(data: &[u8], chunk: &ChunkHeader, acc: Gathered) -> (res: Result<
    Gathered,
    SF2Error,
>)
    requires
        acc.wf(),
        is_header(*chunk, data@, chunk.pos as int),
    ensures
        match res {
            Ok(next) => next.wf() && gather_info(data@, chunk.pos as int, acc@) == Ok::<
                GatheredView,
                SF2ErrorKind,
            >(next@),
            Err(e) => gather_info(data@, chunk.pos as int, acc@) == Err::<
                GatheredView,
                SF2ErrorKind,
            >(e.kind()),
        },
{
    let mut acc = acc;
    let ghost before = acc@;
    if !id_is_text(&chunk.id) {
        return Err(SF2Error::of_kind(SF2ErrorKind::InvalidChunkId));
    }
    let is_ifil: bool = id_is(&chunk.id, 0x69, 0x66, 0x69, 0x6c);
    let is_iver: bool = id_is(&chunk.id, 0x69, 0x76, 0x65, 0x72);
    if is_ifil || is_iver {
        let contents = match chunk_contents(data, chunk.pos) {
            Some(contents) => contents,
            None => {
                return Err(SF2Error::of_kind(SF2ErrorKind::Io));
            },
        };
        if contents.len() < 4 {
            return Err(SF2Error::of_kind(SF2ErrorKind::TruncatedVersion));
        }
        let version: [u16; 2] = [
            read_u16(contents.as_slice(), 0),
            read_u16(contents.as_slice(), 2),
        ];
        assert(version@ =~= version_of(contents@));
        if is_ifil {
            acc.info.sf_version = version;
        } else {
            acc.info.rom_version = version;
        }
        assert(acc@.tables =~= before.tables);
        return Ok(acc);
    }
    match text_for(&chunk.id) {
        None => Ok(acc),
        Some(which) => {
            let contents = match chunk_contents(data, chunk.pos) {
                Some(contents) => contents,
                None => {
                    return Err(SF2Error::of_kind(SF2ErrorKind::Io));
                },
            };
            match text_of(contents) {
                None => Err(SF2Error::of_kind(SF2ErrorKind::InvalidUtf8)),
                Some(text) => {
                    push_text(&mut acc.info, which, text.as_str());
                    assert(acc@.tables =~= before.tables);
                    Ok(acc)
                },
            }
        },
    }
}

/// Adds what a chunk of the `pdta` list adds.
pub fn add_table(data: &[u8], chunk: &ChunkHeader, acc: Gathered) -> (res: Result<
    Gathered,
    SF2Error,
>)
    requires
        acc.wf(),
        is_header(*chunk, data@, chunk.pos as int),
    ensures
        match res {
            Ok(next) => next.wf() && gather_table(data@, chunk.pos as int, acc@) == Ok::<
                GatheredView,
                SF2ErrorKind,
            >(next@),
            Err(e) => gather_table(data@, chunk.pos as int, acc@) == Err::<
                GatheredView,
                SF2ErrorKind,
            >(e.kind()),
        },
{
    let mut acc = acc;
    let ghost before = acc@;
    let contents = match chunk_contents(data, chunk.pos) {
        Some(contents) => contents,
        None => {
            return Err(SF2Error::of_kind(SF2ErrorKind::Io));
        },
    };
    if !id_is_text(&chunk.id) {
        return Err(SF2Error::of_kind(SF2ErrorKind::InvalidChunkId));
    }
    match table_for(&chunk.id) {
        None => Ok(acc),
        Some(table) => {
            if contents.len() % record_length(table) != 0 {
                return Err(SF2Error::of_kind(SF2ErrorKind::InvalidLength(table)));
            }
            let ghost bytes = contents@;
            acc.tables.set(table_slot(table), contents);
            assert(acc@.tables =~= before.tables.update(table_index(table), bytes));
            Ok(acc)
        },
    }
}

/// Adds what a chunk adds, inside a list of type `ty`.
pub fn add_chunk(data: &[u8], ty: &[u8; 4], chunk: &ChunkHeader, acc: Gathered) -> (res: Result<
    Gathered,
    SF2Error,
>)
    requires
        acc.wf(),
        is_header(*chunk, data@, chunk.pos as int),
    ensures
        match res {
            Ok(next) => next.wf() && gather_chunk(data@, ty@, chunk.pos as int, acc@) == Ok::<
                GatheredView,
                SF2ErrorKind,
            >(next@),
            Err(e) => gather_chunk(data@, ty@, chunk.pos as int, acc@) == Err::<
                GatheredView,
                SF2ErrorKind,
            >(e.kind()),
        },
{
    if id_is(ty, 0x49, 0x4e, 0x46, 0x4f) {
        assert(INFO@ =~= seq![0x49u8, 0x4eu8, 0x46u8, 0x4fu8]);
        add_info(data, chunk, acc)
    } else if id_is(ty, 0x73, 0x64, 0x74, 0x61) {
        assert(INFO@ =~= seq![0x49u8, 0x4eu8, 0x46u8, 0x4fu8]);
        assert(SDTA@ =~= seq![0x73u8, 0x64u8, 0x74u8, 0x61u8]);
        let mut acc = acc;
        let ghost before = acc@;
        if !id_is_text(&chunk.id) {
            return Err(SF2Error::of_kind(SF2ErrorKind::InvalidChunkId));
        }
        if id_is(&chunk.id, 0x73, 0x6d, 0x70, 0x6c) {
            acc.smpl = Some(chunk.pos);
            assert(acc@.tables =~= before.tables);
        }
        Ok(acc)
    } else if id_is(ty, 0x70, 0x64, 0x74, 0x61) {
        assert(INFO@ =~= seq![0x49u8, 0x4eu8, 0x46u8, 0x4fu8]);
        assert(SDTA@ =~= seq![0x73u8, 0x64u8, 0x74u8, 0x61u8]);
        assert(PDTA@ =~= seq![0x70u8, 0x64u8, 0x74u8, 0x61u8]);
        add_table(data, chunk, acc)
    } else {
        assert(INFO@ =~= seq![0x49u8, 0x4eu8, 0x46u8, 0x4fu8]);
        assert(SDTA@ =~= seq![0x73u8, 0x64u8, 0x74u8, 0x61u8]);
        assert(PDTA@ =~= seq![0x70u8, 0x64u8, 0x74u8, 0x61u8]);
        Ok(acc)
    }
}

/// Adds what the list at `list` adds.
pub fn add_list(data: &[u8], list: &ChunkHeader, acc: Gathered) -> (res: Result<
    Gathered,
    SF2Error,
>)
    requires
        data@.len() <= isize::MAX,
        acc.wf(),
        is_header(*list, data@, list.pos as int),
    ensures
        match res {
            Ok(next) => next.wf() && gather_list(data@, list.pos as int, acc@) == Ok::<
                GatheredView,
                SF2ErrorKind,
            >(next@),
            Err(e) => gather_list(data@, list.pos as int, acc@) == Err::<
                GatheredView,
                SF2ErrorKind,
            >(e.kind()),
        },
{
    let ty: [u8; 4] = match read_type(data, list.pos) {
        Ok(ty) => ty,
        Err(_) => {
            return Err(SF2Error::of_kind(SF2ErrorKind::Io));
        },
    };
    if !id_is_text(&ty) {
        return Err(SF2Error::of_kind(SF2ErrorKind::InvalidChunkId));
    }
    let chunks: Vec<ChunkHeader> = match read_children(data, list.pos) {
        Ok(chunks) => chunks,
        Err(_) => {
            return Err(SF2Error::of_kind(SF2ErrorKind::Io));
        },
    };
    let ghost offsets = children_at(data@, list.pos as int)->0;
    let ghost first = acc@;
    let mut cur = acc;
    let mut i: usize = 0;
    while i < chunks.len()
        invariant
            i <= chunks@.len(),
            cur.wf(),
            first == acc@,
            are_headers(chunks@, data@, offsets),
            type_at(data@, list.pos as int) == Some(ty@),
            valid_utf8(ty@),
            children_at(data@, list.pos as int) == Some(offsets),
            fold_chunks(offsets, i as int, first, chunk_step(data@, ty@)) == Ok::<
                GatheredView,
                SF2ErrorKind,
            >(cur@),
        decreases chunks@.len() - i,
    {
        let chunk: ChunkHeader = chunks[i];
        cur = match add_chunk(data, &ty, &chunk, cur) {
            Ok(next) => next,
            Err(e) => {
                proof {
                    lemma_fold_chunks_stays(
                        offsets,
                        i + 1,
                        offsets.len() as int,
                        first,
                        chunk_step(data@, ty@),
                    );
                }
                return Err(e);
            },
        };
        i += 1;
    }
    Ok(cur)
}

/// Walks through the container in `data`.
pub fn gather(data: &[u8]) -> (res: Result<Gathered, SF2Error>)
    requires
        data@.len() <= isize::MAX,
    ensures
        match res {
            Ok(all) => all.wf() && gathered(data@) == Ok::<GatheredView, SF2ErrorKind>(all@),
            Err(e) => gathered(data@) == Err::<GatheredView, SF2ErrorKind>(e.kind()),
        },
{
    let lists: Vec<ChunkHeader> = match read_children(data, 0) {
        Ok(lists) => lists,
        Err(_) => {
            return Err(SF2Error::of_kind(SF2ErrorKind::Io));
        },
    };
    let ghost offsets = children_at(data@, 0)->0;
    let mut acc = start();
    let mut i: usize = 0;
    while i < lists.len()
        invariant
            i <= lists@.len(),
            data@.len() <= isize::MAX,
            acc.wf(),
            are_headers(lists@, data@, offsets),
            children_at(data@, 0) == Some(offsets),
            fold_chunks(offsets, i as int, nothing(), list_step(data@)) == Ok::<
                GatheredView,
                SF2ErrorKind,
            >(acc@),
        decreases lists@.len() - i,
    {
        let list: ChunkHeader = lists[i];
        acc = match add_list(data, &list, acc) {
            Ok(next) => next,
            Err(e) => {
                proof {
                    lemma_fold_chunks_stays(
                        offsets,
                        i + 1,
                        offsets.len() as int,
                        nothing(),
                        list_step(data@),
                    );
                }
                return Err(e);
            },
        };
        i += 1;
    }
    Ok(acc)
}

} // verus!
