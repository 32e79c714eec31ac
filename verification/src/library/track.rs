//! The track abstraction: whatever the source of a track's metadata, it
//! offers a location, a name, a tempo, comments, and the tempo
//! annotations parsed out of those comments.
use vstd::prelude::*;

verus! {

use crate::library::ellingtondata::EllingtonData;
use crate::library::ellingtondata::spec_eldata_list;

/// Copy a list of strings.
pub fn clone_string_vec(v: &Vec<String>) -> (r: Vec<String>)
    ensures
        r@ == v@,
{
    let mut r: Vec<String> = Vec::new();
    let mut i: usize = 0;
    while i < v.len()
        invariant
            0 <= i <= v@.len(),
            r@ == v@.take(i as int),
        decreases v@.len() - i,
    {
        r.push(v[i].clone());
        proof {
            assert(r@ =~= v@.take(i + 1));
        }
        i += 1;
    }
    proof {
        assert(v@.take(v@.len() as int) =~= v@);
    }
    r
}

/// Parse each comment of a list, keeping the data of those that hold any.
#[verifier::loop_isolation(false)]
pub fn eldata_list(cs: &Vec<String>) -> (r: Vec<EllingtonData>)
    ensures
        r@ == spec_eldata_list(cs.deep_view()),
{
    let ghost dv = cs.deep_view();
    let mut r: Vec<EllingtonData> = Vec::new();
    let mut i: usize = 0;
    while i < cs.len()
        invariant
            0 <= i <= cs@.len(),
            dv == cs.deep_view(),
            dv.len() == cs@.len(),
            r@ == spec_eldata_list(dv.take(i as int)),
        decreases cs@.len() - i,
    {
        proof {
            assert(dv.take(i + 1).drop_last() =~= dv.take(i as int));
            assert(dv.take(i + 1).last() == dv[i as int]);
            assert(dv[i as int] == cs@[i as int]@);
        }
        match EllingtonData::parse(&cs[i]) {
            Some(ed) => {
                r.push(ed);
            },
            None => {},
        }
        i += 1;
    }
    proof {
        assert(dv.take(dv.len() as int) =~= dv);
    }
    r
}

/// A source of track metadata.
pub trait Track {
    /// The path of the track's file.
    spec fn spec_location(&self) -> Seq<char>;

    /// The track's title, where one is known.
    spec fn spec_name(&self) -> Option<Seq<char>>;

    /// The track's recorded tempo, where one is known.
    spec fn spec_bpm(&self) -> Option<i64>;

    /// The track's comments, where any are known.
    spec fn spec_comments(&self) -> Option<Seq<Seq<char>>>;

    fn location(&self) -> (r: String)
        ensures
            r@ == self.spec_location(),
    ;

    fn name(&self) -> (r: Option<String>)
        ensures
            match r {
                Some(n) => self.spec_name() == Some(n@),
                None => self.spec_name() is None,
            },
    ;

    fn bpm(&self) -> (r: Option<i64>)
        ensures
            r == self.spec_bpm(),
    ;

    fn comments(&self) -> (r: Option<Vec<String>>)
        ensures
            match r {
                Some(cs) => self.spec_comments() == Some(cs.deep_view()),
                None => self.spec_comments() is None,
            },
    ;

    /// The annotations parsed out of the comments: nothing without
    /// comments, nothing when no comment parses, else the parsed data
    /// in comment order.
    fn ellington_data(&self) -> (r: Option<Vec<EllingtonData>>)
        ensures
            match self.spec_comments() {
                None => r is None,
                Some(cs) => {
                    let l = spec_eldata_list(cs);
                    if l.len() == 0 {
                        r is None
                    } else {
                        r is Some && r->0@ == l
                    }
                },
            },
    ;
}

/// The plain fields shared by the file-backed track types.
#[derive(Clone, Debug, PartialEq, Eq)]
pub struct TrackImpl {
    pub location: String,
    pub name: String,
    pub bpm: Option<i64>,
    pub comments: Option<Vec<String>>,
}

/// A track whose metadata was read through the generic tag reader.
#[derive(Clone, Debug, PartialEq, Eq)]
pub struct GenericTrack {
    pub location: String,
    pub name: String,
    pub bpm: Option<i64>,
    pub comments: Option<Vec<String>>,
}

impl Track for GenericTrack {
    open spec fn spec_location(&self) -> Seq<char> {
        self.location@
    }

    open spec fn spec_name(&self) -> Option<Seq<char>> {
        Some(self.name@)
    }

    open spec fn spec_bpm(&self) -> Option<i64> {
        self.bpm
    }

    open spec fn spec_comments(&self) -> Option<Seq<Seq<char>>> {
        match self.comments {
            Some(ref cs) => Some(cs.deep_view()),
            None => None,
        }
    }

    fn location(&self) -> (r: String) {
        self.location.clone()
    }

    fn name(&self) -> (r: Option<String>) {
        Some(self.name.clone())
    }

    fn bpm(&self) -> (r: Option<i64>) {
        self.bpm
    }

    fn comments(&self) -> (r: Option<Vec<String>>) {
        match &self.comments {
            Some(cs) => Some(clone_string_vec(cs)),
            None => None,
        }
    }

    fn ellington_data(&self) -> (r: Option<Vec<EllingtonData>>) {
        match &self.comments {
            Some(cs) => {
                let ed = eldata_list(cs);
                if ed.len() == 0 {
                    None
                } else {
                    Some(ed)
                }
            },
            None => None,
        }
    }
}

} // verus!
