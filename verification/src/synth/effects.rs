//! The building blocks of the effects.

pub mod envelope;
pub mod ring_buffer;
