//! The modules that this library knows how to fill with segments.

pub mod kubernetes;
