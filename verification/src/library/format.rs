//! Per-format track types: MP3 files, and the fallback for files the
//! tool cannot handle.
use vstd::prelude::*;

verus! {

use crate::library::ellingtondata::EllingtonData;
use crate::library::track::Track;
use crate::library::track::TrackImpl;
use crate::library::track::clone_string_vec;
use crate::library::track::eldata_list;

/// A track backed by an MP3 file's ID3 tag.
#[derive(Clone, Debug, PartialEq, Eq)]
pub struct Mp3(pub TrackImpl);

impl Track for Mp3 {
    open spec fn spec_location(&self) -> Seq<char> {
        self.0.location@
    }

    open spec fn spec_name(&self) -> Option<Seq<char>> {
        Some(self.0.name@)
    }

    open spec fn spec_bpm(&self) -> Option<i64> {
        self.0.bpm
    }

    open spec fn spec_comments(&self) -> Option<Seq<Seq<char>>> {
        match self.0.comments {
            Some(ref cs) => Some(cs.deep_view()),
            None => None,
        }
    }

    fn location(&self) -> (r: String) {
        self.0.location.clone()
    }

    fn name(&self) -> (r: Option<String>) {
        Some(self.0.name.clone())
    }

    fn bpm(&self) -> (r: Option<i64>) {
        self.0.bpm
    }

    fn comments(&self) -> (r: Option<Vec<String>>) {
        match &self.0.comments {
            Some(cs) => Some(clone_string_vec(cs)),
            None => None,
        }
    }

    fn ellington_data(&self) -> (r: Option<Vec<EllingtonData>>) {
        match &self.0.comments {
            Some(cs) => {
                let ed = eldata_list(cs);
                if ed.len() == 0 {
                    None
                } else {
                    Some(ed)
                }
            },
            None => None,
        }
    }
}

/// A file of a kind the tool cannot handle: it offers nothing.
#[derive(Clone, Debug, PartialEq, Eq)]
pub struct UnknownFile {
    pub location: String,
    pub error: &'static str,
}

impl Track for UnknownFile {
    open spec fn spec_location(&self) -> Seq<char> {
        self.location@
    }

    open spec fn spec_name(&self) -> Option<Seq<char>> {
        None
    }

    open spec fn spec_bpm(&self) -> Option<i64> {
        None
    }

    open spec fn spec_comments(&self) -> Option<Seq<Seq<char>>> {
        None
    }

    fn location(&self) -> (r: String) {
        self.location.clone()
    }

    fn name(&self) -> (r: Option<String>) {
        None
    }

    fn bpm(&self) -> (r: Option<i64>) {
        None
    }

    fn comments(&self) -> (r: Option<Vec<String>>) {
        None
    }

    fn ellington_data(&self) -> (r: Option<Vec<EllingtonData>>) {
        None
    }
}

} // verus!
