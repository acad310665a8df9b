//! Composition and rendering of prompt modules.
//!
//! A module is an ordered list of segments: styled text, fills and line
//! terminators. Rendering groups the segments into display lines, resolves
//! every fill against an optional target width, and wraps the terminal
//! escape sequences in the markers that some shells need.

pub mod compose;
pub mod module;
pub mod modules;
pub mod segment;
pub mod shell;
pub mod string_specs;
pub mod style;
pub mod width;
pub mod yaml;
