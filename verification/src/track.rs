//! A bare record of one track as an early iTunes reader shaped it.
use vstd::prelude::*;

verus! {

/// One track: its iTunes identifier and what little is known of it.
#[derive(Clone, Debug, PartialEq, Eq)]
pub struct Track {
    pub itunes_id: u32,
    pub bpm: Option<u32>,
    pub name: Option<String>,
    pub location: Option<String>,
}

} // verus!
