//! The chunk identifiers and list types of the bank format.

use vstd::prelude::*;

verus! {

pub const WSBK: [u8; 4] = [0x77, 0x73, 0x62, 0x6b];

pub const NAME: [u8; 4] = [0x6e, 0x61, 0x6d, 0x65];

pub const SMLS: [u8; 4] = [0x73, 0x6d, 0x6c, 0x73];

pub const SMPL: [u8; 4] = [0x73, 0x6d, 0x70, 0x6c];

pub const SMHD: [u8; 4] = [0x73, 0x6d, 0x68, 0x64];

pub const SMDT: [u8; 4] = [0x73, 0x6d, 0x64, 0x74];

pub const LRGN: [u8; 4] = [0x6c, 0x72, 0x67, 0x6e];

pub const RGNI: [u8; 4] = [0x72, 0x67, 0x6e, 0x69];

pub const RGNH: [u8; 4] = [0x72, 0x67, 0x6e, 0x68];

pub const ARTC: [u8; 4] = [0x61, 0x72, 0x74, 0x63];

pub const LINS: [u8; 4] = [0x6c, 0x69, 0x6e, 0x73];

pub const INST: [u8; 4] = [0x69, 0x6e, 0x73, 0x74];

pub const INSH: [u8; 4] = [0x69, 0x6e, 0x73, 0x68];

pub const LPRS: [u8; 4] = [0x6c, 0x70, 0x72, 0x73];

pub const PRST: [u8; 4] = [0x70, 0x72, 0x73, 0x74];

pub const PRSH: [u8; 4] = [0x70, 0x72, 0x73, 0x68];

} // verus!
