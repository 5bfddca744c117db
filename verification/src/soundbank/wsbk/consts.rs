//! Identifiers used by articulators: sources, destinations and transforms.

pub mod artc_dest;
pub mod artc_src;
pub mod artc_transform;
