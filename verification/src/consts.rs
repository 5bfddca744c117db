//! Constants shared by the whole synthesizer.

pub mod manufacturers;
