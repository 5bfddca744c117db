//! Audio as a stream of frames for a pipe: two 32-bit samples a frame, left
//! before right.

use vstd::prelude::*;

verus! {

/// The byte order of the samples in the stream.
#[derive(PartialEq, Eq, Structural, Clone, Copy, Debug)]
pub enum SampleEndian {
    Little,
    Big,
}

/// A stream of frames in one byte order.
pub struct Pipe {
    endian: SampleEndian,
}

/// The four bytes of a 32-bit pattern in the given order.
pub open spec fn sample_bytes(endian: SampleEndian, bits: u32) -> Seq<u8> {
    let b0 = (bits % 256) as u8;
    let b1 = (bits / 256 % 256) as u8;
    let b2 = (bits / 65536 % 256) as u8;
    let b3 = (bits / 16777216) as u8;
    match endian {
        SampleEndian::Little => seq![b0, b1, b2, b3],
        SampleEndian::Big => seq![b3, b2, b1, b0],
    }
}

impl Pipe {
    pub closed spec fn spec_endian(&self) -> SampleEndian {
        self.endian
    }

    pub fn new(endian: SampleEndian) -> (res: Self)
        ensures
            res.endian() == endian,
    {
        Self { endian }
    }

    #[verifier::when_used_as_spec(spec_endian)]
    pub fn endian(&self) -> (res: SampleEndian)
        ensures
            res == self.endian(),
    {
        self.endian
    }

    /// A pipe is fed in real time.
    pub fn get_is_realtime(&self) -> (res: bool)
        ensures
            res,
    {
        true
    }

    /// The eight bytes of one frame: the bit patterns of the left and of the
    /// right sample, each in the byte order of the pipe.
    pub fn frame_bytes(&self, left_bits: u32, right_bits: u32) -> (res: [u8; 8])
        ensures
            res@ == sample_bytes(self.endian(), left_bits) + sample_bytes(
                self.endian(),
                right_bits,
            ),
    {
        let l0: u8 = (left_bits % 256) as u8;
        let l1: u8 = (left_bits / 256 % 256) as u8;
        let l2: u8 = (left_bits / 65536 % 256) as u8;
        let l3: u8 = (left_bits / 16777216) as u8;
        let r0: u8 = (right_bits % 256) as u8;
        let r1: u8 = (right_bits / 256 % 256) as u8;
        let r2: u8 = (right_bits / 65536 % 256) as u8;
        let r3: u8 = (right_bits / 16777216) as u8;
        let res: [u8; 8] = match self.endian {
            SampleEndian::Little => [l0, l1, l2, l3, r0, r1, r2, r3],
            SampleEndian::Big => [l3, l2, l1, l0, r3, r2, r1, r0],
        };
        assert(res@ =~= sample_bytes(self.endian(), left_bits) + sample_bytes(
            self.endian(),
            right_bits,
        ));
        res
    }
}

/// The two byte orders are each other's mirror image.
pub proof fn lemma_orders_mirror(bits: u32)
    ensures
        sample_bytes(SampleEndian::Big, bits) == sample_bytes(SampleEndian::Little, bits).reverse(),
{
    assert(sample_bytes(SampleEndian::Big, bits) =~= sample_bytes(
        SampleEndian::Little,
        bits,
    ).reverse());
}

} // verus!
