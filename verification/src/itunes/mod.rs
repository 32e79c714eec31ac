//! Tracks as an iTunes library file describes them.
pub mod track;
