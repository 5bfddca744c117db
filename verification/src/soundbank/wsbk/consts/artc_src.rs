//! Identifiers of articulator sources and controls.
//!
//! Plain sources occupy `0x0000..=0x00ff`. Each of the three MIDI families
//! occupies the block of 65536 identifiers that starts at its base.

use vstd::prelude::*;

verus! {

pub const NONE: u32 = 0x0000;

pub const PITCH_WHEEL: u32 = 0x0001;

pub const NOTE_ON_VELOCITY: u32 = 0x0002;

pub const NOTE_NUMBER: u32 = 0x0003;

pub const VOLUME_ENV: u32 = 0x0004;

pub const MODULATION_ENV: u32 = 0x0005;

pub const NOTE_AFTERTOUCH: u32 = 0x0006;

pub const CHANNEL_AFTERTOUCH: u32 = 0x0007;

pub const MODULATION_LFO: u32 = 0x0008;

pub const VIBRATO_LFO: u32 = 0x0009;

/// Base of the control change block.
pub const MIDI_CONTROL_CHANGE: u32 = 0x0001_0000;

/// Base of the registered parameter block.
pub const MIDI_RPN: u32 = 0x0002_0000;

/// Base of the non-registered parameter block.
pub const MIDI_NRPN: u32 = 0x0004_0000;

/// The block of 65536 identifiers that `val` lies in, named by its first
/// identifier.
pub open spec fn block_base(val: u32) -> int {
    (val as int / 0x1_0000) * 0x1_0000
}

/// What shifting a most significant byte into place yields: the product by
/// 256, cut to 32 bits.
pub open spec fn msb_part(msb: u32) -> int {
    (msb as int * 256) % 0x1_0000_0000
}

proof fn lemma_block_base(val: u32)
    ensures
        (val & 0xffff_0000) as int == block_base(val),
{
    assert((val & 0xffff_0000) == (val / 0x1_0000) * 0x1_0000) by (bit_vector);
}

proof fn lemma_msb_part(msb: u32)
    ensures
        (msb << 8) as int == msb_part(msb),
{
    assert((msb << 8) as int == (msb as int * 256) % 0x1_0000_0000) by (bit_vector);
}

/// Identifier of control change number `no`.
pub fn midi_cc(no: u32) -> (id: u32)
    requires
        MIDI_CONTROL_CHANGE + no <= u32::MAX,
    ensures
        id == MIDI_CONTROL_CHANGE + no,
{
    MIDI_CONTROL_CHANGE + no
}

/// Whether `val` lies in the control change block.
pub fn is_midi_cc(val: u32) -> (res: bool)
    ensures
        res == (block_base(val) == MIDI_CONTROL_CHANGE),
        res == (0x0001_0000 <= val <= 0x0001_ffff),
{
    proof {
        lemma_block_base(val);
    }
    MIDI_CONTROL_CHANGE == (val & 0xffff_0000)
}

/// Identifier of the registered parameter with the given two bytes.
pub fn midi_rpn(msb: u32, lsb: u32) -> (id: u32)
    requires
        MIDI_RPN + msb_part(msb) + lsb <= u32::MAX,
    ensures
        id == MIDI_RPN + msb_part(msb) + lsb,
        msb <= 0xff_ffff ==> id == MIDI_RPN + msb * 256 + lsb,
{
    proof {
        lemma_msb_part(msb);
    }
    MIDI_RPN + (msb << 8) + lsb
}

/// Whether `val` lies in the registered parameter block.
pub fn is_midi_rpn(val: u32) -> (res: bool)
    ensures
        res == (block_base(val) == MIDI_RPN),
        res == (0x0002_0000 <= val <= 0x0002_ffff),
{
    proof {
        lemma_block_base(val);
    }
    MIDI_RPN == (val & 0xffff_0000)
}

/// Identifier of the non-registered parameter with the given two bytes.
pub fn midi_nrpn(msb: u32, lsb: u32) -> (id: u32)
    requires
        MIDI_NRPN + msb_part(msb) + lsb <= u32::MAX,
    ensures
        id == MIDI_NRPN + msb_part(msb) + lsb,
        msb <= 0xff_ffff ==> id == MIDI_NRPN + msb * 256 + lsb,
{
    proof {
        lemma_msb_part(msb);
    }
    MIDI_NRPN + (msb << 8) + lsb
}

/// Whether `val` lies in the non-registered parameter block.
pub fn is_midi_nrpn(val: u32) -> (res: bool)
    ensures
        res == (block_base(val) == MIDI_NRPN),
        res == (0x0004_0000 <= val <= 0x0004_ffff),
{
    proof {
        lemma_block_base(val);
    }
    MIDI_NRPN == (val & 0xffff_0000)
}

/// The two bytes of a registered parameter come back out of its identifier.
pub proof fn lemma_rpn_in_block(msb: u32, lsb: u32)
    requires
        msb <= 0xff,
        lsb <= 0xff,
    ensures
        msb_part(msb) == msb * 256,
        block_base((MIDI_RPN + msb * 256 + lsb) as u32) == MIDI_RPN,
        block_base((MIDI_NRPN + msb * 256 + lsb) as u32) == MIDI_NRPN,
{
}

} // verus!
