//! System-exclusive manufacturer identifiers.
//!
//! Every identifier is kept as three bytes, also where the first byte alone
//! names the manufacturer.

use vstd::prelude::*;

verus! {

pub const STD_DEV: [u8; 3] = [0x7d, 0x00, 0x00];

pub const STD_NON_REALTIME: [u8; 3] = [0x7e, 0x00, 0x00];

pub const STD_REALTIME: [u8; 3] = [0x7f, 0x00, 0x00];

pub const ROLAND: [u8; 3] = [0x41, 0x00, 0x00];

pub const WHITESYNTH: [u8; 3] = STD_DEV;

} // verus!
