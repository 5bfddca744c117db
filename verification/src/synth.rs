//! The synthesizer engine: what a MIDI message asks of it.

pub mod articulator;
pub mod effects;
pub mod envelope;
pub mod settings;
pub mod vendors;

use vendors::{VendorId, ROLAND_ID, STD_DEV_ID, STD_NON_REALTIME_ID, STD_REALTIME_ID};
use vstd::prelude::*;

verus! {

/// The type of an effect: three bytes.
#[derive(PartialEq, Eq, Structural, Clone, Copy, Debug)]
pub struct FXType(pub u8, pub u8, pub u8);

/// What a MIDI message asks for.
#[derive(PartialEq, Eq, Structural, Clone, Copy, Debug)]
pub enum MidiEvent {
    NoteOff { channel: u8, note: i32, velocity: i32 },
    NoteOn { channel: u8, note: i32, velocity: i32 },
    NoteAftertouch { channel: u8, note: i32, pressure: i32 },
    ControlChange { channel: u8, cc: u8, val: u8 },
    ProgramChange { channel: u8, program_no: i32 },
    ChannelAftertouch { channel: u8, pressure: i32 },
    /// The offset runs from 0 to 16383.
    PitchBend { channel: u8, offset: i32 },
    /// A system-exclusive message, for the manufacturer that it names.
    Sysex { vendor: VendorId },
    /// Nothing: the message starts with no status byte, or it is a system
    /// message other than a system-exclusive one.
    Nothing,
}

/// The manufacturer that a system-exclusive message names: the byte behind
/// the status byte, or the two bytes behind that byte where it is zero.
/// None where the message ends before them.
pub open spec fn vendor_of(msg: Seq<u8>) -> Option<VendorId> {
    if msg.len() < 2 {
        None
    } else if msg[1] == 0 {
        if msg.len() < 4 {
            None
        } else {
            Some(VendorId::Extended(msg[2], msg[3]))
        }
    } else {
        Some(VendorId::Standard(msg[1]))
    }
}

/// What a message asks for, and none where it ends before the bytes that
/// its status byte announces. The high four bits of the status byte say
/// what is asked, the low four bits name the channel. A note that is
/// switched on with velocity 0 is switched off.
pub open spec fn event_of(msg: Seq<u8>) -> Option<MidiEvent> {
    if msg.len() < 1 {
        None
    } else {
        let category = msg[0] as int / 16;
        let channel = (msg[0] as int % 16) as u8;
        if category < 8 {
            Some(MidiEvent::Nothing)
        } else if category == 0xf {
            if channel != 0 {
                Some(MidiEvent::Nothing)
            } else {
                match vendor_of(msg) {
                    None => None,
                    Some(vendor) => Some(MidiEvent::Sysex { vendor }),
                }
            }
        } else if msg.len() < 2 {
            None
        } else if category == 0xc {
            Some(MidiEvent::ProgramChange { channel, program_no: msg[1] as i32 })
        } else if category == 0xd {
            Some(MidiEvent::ChannelAftertouch { channel, pressure: msg[1] as i32 })
        } else if msg.len() < 3 {
            None
        } else if category == 0x8 || (category == 0x9 && msg[2] == 0) {
            Some(MidiEvent::NoteOff { channel, note: msg[1] as i32, velocity: msg[2] as i32 })
        } else if category == 0x9 {
            Some(MidiEvent::NoteOn { channel, note: msg[1] as i32, velocity: msg[2] as i32 })
        } else if category == 0xa {
            Some(
                MidiEvent::NoteAftertouch { channel, note: msg[1] as i32, pressure: msg[2] as i32 },
            )
        } else if category == 0xb {
            Some(MidiEvent::ControlChange { channel, cc: msg[1], val: msg[2] })
        } else {
            Some(MidiEvent::PitchBend { channel, offset: (msg[1] + 128 * msg[2]) as i32 })
        }
    }
}

/// Reads the manufacturer that a system-exclusive message names.
pub fn sysex_vendor(msg: &[u8]) -> (res: Option<VendorId>)
    ensures
        res == vendor_of(msg@),
{
    if msg.len() < 2 {
        None
    } else if msg[1] == 0 {
        if msg.len() < 4 {
            None
        } else {
            Some(VendorId::Extended(msg[2], msg[3]))
        }
    } else {
        Some(VendorId::Standard(msg[1]))
    }
}

/// Reads what a message asks for.
pub fn decode_midi_message(msg: &[u8]) -> (res: Option<MidiEvent>)
    ensures
        res == event_of(msg@),
{
    if msg.len() < 1 {
        return None;
    }
    let category: u8 = msg[0] / 16;
    let channel: u8 = msg[0] % 16;
    if category < 8 {
        return Some(MidiEvent::Nothing);
    }
    if category == 0xf {
        if channel != 0 {
            return Some(MidiEvent::Nothing);
        }
        return match sysex_vendor(msg) {
            None => None,
            Some(vendor) => Some(MidiEvent::Sysex { vendor }),
        };
    }
    if msg.len() < 2 {
        return None;
    }
    if category == 0xc {
        return Some(MidiEvent::ProgramChange { channel, program_no: msg[1] as i32 });
    }
    if category == 0xd {
        return Some(MidiEvent::ChannelAftertouch { channel, pressure: msg[1] as i32 });
    }
    if msg.len() < 3 {
        return None;
    }
    let first: i32 = msg[1] as i32;
    let second: i32 = msg[2] as i32;
    if category == 0x8 || (category == 0x9 && second == 0) {
        Some(MidiEvent::NoteOff { channel, note: first, velocity: second })
    } else if category == 0x9 {
        Some(MidiEvent::NoteOn { channel, note: first, velocity: second })
    } else if category == 0xa {
        Some(MidiEvent::NoteAftertouch { channel, note: first, pressure: second })
    } else if category == 0xb {
        Some(MidiEvent::ControlChange { channel, cc: msg[1], val: msg[2] })
    } else {
        Some(MidiEvent::PitchBend { channel, offset: first + 128 * second })
    }
}

/// Who handles a system-exclusive message.
#[derive(PartialEq, Eq, Structural, Clone, Copy, Debug)]
pub enum SysexHandler {
    /// Universal non-real-time messages.
    GmNonRealtime,
    /// Universal real-time messages.
    GmRealtime,
    /// The extensions of Roland.
    Gs,
    /// The extensions of this synthesizer.
    Wsn,
    /// Nobody: the manufacturer is not known.
    Unknown,
}

/// Who handles the messages for a manufacturer.
pub open spec fn handler_of(vendor: VendorId) -> SysexHandler {
    if vendor == VendorId::Standard(STD_NON_REALTIME_ID) {
        SysexHandler::GmNonRealtime
    } else if vendor == VendorId::Standard(STD_REALTIME_ID) {
        SysexHandler::GmRealtime
    } else if vendor == VendorId::Standard(ROLAND_ID) {
        SysexHandler::Gs
    } else if vendor == VendorId::Standard(STD_DEV_ID) {
        SysexHandler::Wsn
    } else {
        SysexHandler::Unknown
    }
}

/// Decides who handles the messages for a manufacturer.
pub fn sysex_handler(vendor: VendorId) -> (res: SysexHandler)
    ensures
        res == handler_of(vendor),
{
    match vendor {
        VendorId::Standard(id) => if id == STD_NON_REALTIME_ID {
            SysexHandler::GmNonRealtime
        } else if id == STD_REALTIME_ID {
            SysexHandler::GmRealtime
        } else if id == ROLAND_ID {
            SysexHandler::Gs
        } else if id == STD_DEV_ID {
            SysexHandler::Wsn
        } else {
            SysexHandler::Unknown
        },
        VendorId::Extended(_, _) => SysexHandler::Unknown,
    }
}

/// A message that is long enough for its status byte is always read, and
/// three bytes are enough for every message but a system-exclusive one.
pub proof fn lemma_three_bytes_suffice(msg: Seq<u8>)
    requires
        msg.len() >= 3,
    ensures
        event_of(msg) is None ==> msg[0] == 0xf0 && msg[1] == 0 && msg.len() < 4,
        event_of(msg) matches Some(MidiEvent::PitchBend { channel, offset }) ==> 0 <= offset
            <= 255 + 128 * 255,
{
}

/// A pitch bend made of two bytes of seven bits stays inside 0 to 16383.
pub proof fn lemma_pitch_bend_range(msg: Seq<u8>)
    requires
        msg.len() >= 3,
        msg[0] as int / 16 == 0xe,
        msg[1] < 128,
        msg[2] < 128,
    ensures
        event_of(msg) matches Some(MidiEvent::PitchBend { channel, offset }) && 0 <= offset
            <= 16383 && channel == msg[0] as int % 16,
{
}

} // verus!
