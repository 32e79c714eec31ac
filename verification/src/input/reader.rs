//! A buffered reader shell around a source of items.
use vstd::prelude::*;

verus! {

/// A buffer of items read in from some source.
pub struct Reader<T> {
    buffer: Vec<T>,
}

impl<T> Reader<T> {
    /// The items currently buffered.
    pub closed spec fn spec_buffer(&self) -> Seq<T> {
        self.buffer@
    }

    /// Start a reader over a source; nothing is buffered yet.
    pub fn read_in<S>(_source: S) -> (r: Reader<T>)
        ensures
            r.spec_buffer().len() == 0,
    {
        let buffer: Vec<T> = Vec::new();
        Reader { buffer }
    }
}

} // verus!
