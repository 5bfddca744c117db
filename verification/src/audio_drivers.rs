//! Where rendered audio goes.

pub mod pipe;
