//! Sample bank formats.

pub mod bytes;
pub mod container;
pub mod layout;
pub mod sf2;
pub mod text;
pub mod wsbk;
