//! Manufacturer identifiers of system-exclusive messages.

use vstd::prelude::*;

verus! {

/// A manufacturer identifier: one byte, or two bytes behind a zero byte.
#[derive(PartialEq, Eq, Structural, Clone, Copy, Debug)]
pub enum VendorId {
    Standard(u8),
    Extended(u8, u8),
}

/// Identifier byte reserved for development and private use.
pub const STD_DEV_ID: u8 = 0x7d;

/// Identifier byte of universal non-real-time messages.
pub const STD_NON_REALTIME_ID: u8 = 0x7e;

/// Identifier byte of universal real-time messages.
pub const STD_REALTIME_ID: u8 = 0x7f;

/// Identifier byte of Roland.
pub const ROLAND_ID: u8 = 0x41;

impl VendorId {
    /// The identifier for development and private use.
    pub fn std_dev() -> (id: Self)
        ensures
            id == VendorId::Standard(STD_DEV_ID),
    {
        VendorId::Standard(STD_DEV_ID)
    }

    /// The identifier of universal non-real-time messages.
    pub fn std_non_realtime() -> (id: Self)
        ensures
            id == VendorId::Standard(STD_NON_REALTIME_ID),
    {
        VendorId::Standard(STD_NON_REALTIME_ID)
    }

    /// The identifier of universal real-time messages.
    pub fn std_realtime() -> (id: Self)
        ensures
            id == VendorId::Standard(STD_REALTIME_ID),
    {
        VendorId::Standard(STD_REALTIME_ID)
    }

    /// The identifier of Roland.
    pub fn roland() -> (id: Self)
        ensures
            id == VendorId::Standard(ROLAND_ID),
    {
        VendorId::Standard(ROLAND_ID)
    }

    /// The identifier this synthesizer answers to: the one for development.
    pub fn yj() -> (id: Self)
        ensures
            id == VendorId::Standard(STD_DEV_ID),
    {
        VendorId::Standard(STD_DEV_ID)
    }
}

} // verus!
