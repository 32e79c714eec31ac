//! Core library of the ellington tempo tool: the `[ed|...|]` comment-data
//! format, tempo metadata types, shell command builders for the external
//! audio tools, and the streaming PCM sample decoder.
pub mod actions;
pub mod decimal;
pub mod input;
pub mod itunes;
pub mod library;
pub mod pipelines;
pub mod shelltools;
pub mod soxcall;
pub mod track;
pub mod types;
