//! The generic tag-library backend. Reading and writing tags through it
//! touches the file system, so its behaviour lives with the application;
//! only the backend's name is fixed here.
use vstd::prelude::*;

verus! {

/// The tag-library-backed metadata source.
pub struct GenericTaglibAudioFile;

} // verus!
