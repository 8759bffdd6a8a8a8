//! Records, at build time, which packages went into a binary, and prepares
//! the compressed record for embedding into that binary.

pub mod text;
pub mod features;
pub mod query;
pub mod resolution;
pub mod packaging;
