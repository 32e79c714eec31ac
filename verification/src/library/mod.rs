//! Track-library data: the `[ed|...|]` comment format, file-type
//! classification, track metadata, and the track abstractions built on them.
pub mod ellingtondata;
pub mod filemetadata;
pub mod format;
pub mod track;
pub mod trackmetadata;
