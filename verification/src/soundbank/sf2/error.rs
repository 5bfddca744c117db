//! Why a SoundFont bank was refused.

use vstd::prelude::*;

verus! {

/// The tables of the `pdta` list.
#[derive(PartialEq, Eq, Structural, Clone, Copy, Debug)]
pub enum SF2Table {
    Shdr,
    Inst,
    Ibag,
    Imod,
    Igen,
    Phdr,
    Pbag,
    Pmod,
    Pgen,
}

/// The reasons for which a bank is refused.
#[derive(PartialEq, Eq, Structural, Clone, Copy, Debug)]
pub enum SF2ErrorKind {
    /// The container ends before a chunk that it announces.
    Io,
    /// The four bytes that name a chunk are not text.
    InvalidChunkId,
    /// A text is not valid UTF-8.
    InvalidUtf8,
    /// A version chunk holds fewer than four bytes.
    TruncatedVersion,
    /// The length of a table is no multiple of its record length.
    InvalidLength(SF2Table),
    /// A name starts with a zero byte.
    EmptyName,
    /// A table that must end a range is empty.
    EmptyTable,
    /// A bag, generator or modulator index points behind its table.
    IndexOutOfRange,
    /// The sample data hold half a sample.
    OddSampleData,
    /// The bank has no sample data.
    NoSampleChunk,
    /// Any other reason, given by the message alone.
    Other,
}

/// An error with its message.
#[derive(Debug, Clone)]
pub struct SF2Error {
    kind: SF2ErrorKind,
    message: String,
}

/// The record length of a table.
pub open spec fn record_len(table: SF2Table) -> int {
    match table {
        SF2Table::Shdr => 46,
        SF2Table::Inst => 22,
        SF2Table::Ibag => 4,
        SF2Table::Imod => 10,
        SF2Table::Igen => 4,
        SF2Table::Phdr => 38,
        SF2Table::Pbag => 4,
        SF2Table::Pmod => 10,
        SF2Table::Pgen => 4,
    }
}

/// The message that goes with a kind of error.
pub open spec fn message_of(kind: SF2ErrorKind) -> Seq<char> {
    match kind {
        SF2ErrorKind::Io => "failed to fill whole buffer"@,
        SF2ErrorKind::InvalidChunkId => "invalid chunk id"@,
        SF2ErrorKind::InvalidUtf8 => "invalid utf-8 sequence"@,
        SF2ErrorKind::TruncatedVersion => "invalid length of version chunk"@,
        SF2ErrorKind::InvalidLength(SF2Table::Shdr) => "invalid length of chunk 'shdr'"@,
        SF2ErrorKind::InvalidLength(SF2Table::Inst) => "invalid length of chunk 'inst'"@,
        SF2ErrorKind::InvalidLength(SF2Table::Ibag) => "invalid length of chunk 'ibag'"@,
        SF2ErrorKind::InvalidLength(SF2Table::Imod) => "invalid length of chunk 'imod'"@,
        SF2ErrorKind::InvalidLength(SF2Table::Igen) => "invalid length of chunk 'igen'"@,
        SF2ErrorKind::InvalidLength(SF2Table::Phdr) => "invalid length of chunk 'phdr'"@,
        SF2ErrorKind::InvalidLength(SF2Table::Pbag) => "invalid length of chunk 'pbag'"@,
        SF2ErrorKind::InvalidLength(SF2Table::Pmod) => "invalid length of chunk 'pmod'"@,
        SF2ErrorKind::InvalidLength(SF2Table::Pgen) => "invalid length of chunk 'pgen'"@,
        SF2ErrorKind::EmptyName => "empty name"@,
        SF2ErrorKind::EmptyTable => "empty table"@,
        SF2ErrorKind::IndexOutOfRange => "index out of range"@,
        SF2ErrorKind::OddSampleData => "invalid length of chunk 'smpl'"@,
        SF2ErrorKind::NoSampleChunk => "No smpl chunk"@,
        SF2ErrorKind::Other => "unknown error"@,
    }
}

impl SF2Error {
    pub closed spec fn spec_kind(&self) -> SF2ErrorKind {
        self.kind
    }

    pub closed spec fn spec_message(&self) -> Seq<char> {
        self.message@
    }

    /// An error of kind `Other` with the given message.
    pub fn new(message: &str) -> (res: Self)
        ensures
            res.kind() == SF2ErrorKind::Other,
            res.spec_message() == message@,
    {
        Self { kind: SF2ErrorKind::Other, message: message.to_owned() }
    }

    /// As `new`, in a box.
    pub fn new_box(message: &str) -> (res: Box<Self>)
        ensures
            res.kind() == SF2ErrorKind::Other,
            res.spec_message() == message@,
    {
        Box::new(Self::new(message))
    }

    /// An error of the given kind, with the message of that kind.
    pub fn of_kind(kind: SF2ErrorKind) -> (res: Self)
        ensures
            res.kind() == kind,
            res.spec_message() == message_of(kind),
    {
        let text: &str = match kind {
            SF2ErrorKind::Io => "failed to fill whole buffer",
            SF2ErrorKind::InvalidChunkId => "invalid chunk id",
            SF2ErrorKind::InvalidUtf8 => "invalid utf-8 sequence",
            SF2ErrorKind::TruncatedVersion => "invalid length of version chunk",
            SF2ErrorKind::InvalidLength(SF2Table::Shdr) => "invalid length of chunk 'shdr'",
            SF2ErrorKind::InvalidLength(SF2Table::Inst) => "invalid length of chunk 'inst'",
            SF2ErrorKind::InvalidLength(SF2Table::Ibag) => "invalid length of chunk 'ibag'",
            SF2ErrorKind::InvalidLength(SF2Table::Imod) => "invalid length of chunk 'imod'",
            SF2ErrorKind::InvalidLength(SF2Table::Igen) => "invalid length of chunk 'igen'",
            SF2ErrorKind::InvalidLength(SF2Table::Phdr) => "invalid length of chunk 'phdr'",
            SF2ErrorKind::InvalidLength(SF2Table::Pbag) => "invalid length of chunk 'pbag'",
            SF2ErrorKind::InvalidLength(SF2Table::Pmod) => "invalid length of chunk 'pmod'",
            SF2ErrorKind::InvalidLength(SF2Table::Pgen) => "invalid length of chunk 'pgen'",
            SF2ErrorKind::EmptyName => "empty name",
            SF2ErrorKind::EmptyTable => "empty table",
            SF2ErrorKind::IndexOutOfRange => "index out of range",
            SF2ErrorKind::OddSampleData => "invalid length of chunk 'smpl'",
            SF2ErrorKind::NoSampleChunk => "No smpl chunk",
            SF2ErrorKind::Other => "unknown error",
        };
        Self { kind, message: text.to_owned() }
    }

    #[verifier::when_used_as_spec(spec_kind)]
    pub fn kind(&self) -> (res: SF2ErrorKind)
        ensures
            res == self.kind(),
    {
        self.kind
    }

    /// The message, as text.
    pub fn to_string(&self) -> (res: String)
        ensures
            res@ == self.spec_message(),
    {
        self.message.clone()
    }
}

} // verus!
