//! Builders for the argument lists of the external audio tools the
//! application shells out to. Only the argument lists are built here;
//! spawning the processes is the application's business.
pub mod bellson;
pub mod ffmpeg;
pub mod generic;
pub mod id3v2;
pub mod metadata;
pub mod sox;
