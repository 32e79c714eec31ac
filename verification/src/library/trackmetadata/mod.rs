//! Format-agnostic track metadata, and the parsers that read it out of
//! the metadata tools' line-oriented output.
use vstd::prelude::*;

pub mod id3v2_call;
pub mod mp4tools_call;
pub mod taglib;

verus! {

use crate::library::ellingtondata::AlgMap;
use crate::library::ellingtondata::EllingtonData;
use crate::library::ellingtondata::spec_eldata_of;
use crate::library::ellingtondata::spec_entries_get;
use crate::types::AlgorithmE;
use crate::types::BpmE;

// ---------------------------------------------------------------------
// Finding fixed words in a line.
// ---------------------------------------------------------------------
/// Whether the word `pat` stands at position `i` of `s`.
pub open spec fn spec_occurs_at(s: Seq<char>, i: int, pat: Seq<char>) -> bool {
    0 <= i && i + pat.len() <= s.len() && s.subrange(i, i + pat.len()) == pat
}

/// The first position at or after `from` where the word stands.
pub open spec fn spec_find_first(s: Seq<char>, pat: Seq<char>, from: int) -> Option<int>
    decreases s.len() - from
        when 0 <= from && 1 <= pat.len()
{
    if from + pat.len() > s.len() {
        None
    } else if spec_occurs_at(s, from, pat) {
        Some(from)
    } else {
        spec_find_first(s, pat, from + 1)
    }
}

/// The last position at or below `upto` where the word stands.
pub open spec fn spec_find_last(s: Seq<char>, pat: Seq<char>, upto: int) -> Option<int>
    decreases upto + 1
        when upto >= -1
{
    if upto < 0 {
        None
    } else if spec_occurs_at(s, upto, pat) {
        Some(upto)
    } else {
        spec_find_last(s, pat, upto - 1)
    }
}

/// The last position at or below `upto` where the word stands with a
/// decimal digit right after it.
pub open spec fn spec_find_last_digit(s: Seq<char>, pat: Seq<char>, upto: int) -> Option<int>
    decreases upto + 1
        when upto >= -1
{
    if upto < 0 {
        None
    } else if spec_occurs_at(s, upto, pat) && upto + pat.len() < s.len()
        && crate::decimal::spec_is_digit(s[upto + pat.len()]) {
        Some(upto)
    } else {
        spec_find_last_digit(s, pat, upto - 1)
    }
}

/// The first position at or after `from` where the word stands with a
/// decimal digit right after it.
pub open spec fn spec_find_first_digit(s: Seq<char>, pat: Seq<char>, from: int) -> Option<int>
    decreases s.len() - from
        when 0 <= from && 1 <= pat.len()
{
    if from + pat.len() > s.len() {
        None
    } else if spec_occurs_at(s, from, pat) && from + pat.len() < s.len()
        && crate::decimal::spec_is_digit(s[from + pat.len()]) {
        Some(from)
    } else {
        spec_find_first_digit(s, pat, from + 1)
    }
}

/// Whether the word `w` stands at position `i` of `v`.
#[verifier::loop_isolation(false)]
pub fn occurs_at(v: &Vec<char>, i: usize, w: &Vec<char>) -> (r: bool)
    requires
        i <= v@.len(),
    ensures
        r == spec_occurs_at(v@, i as int, w@),
{
    if v.len() - i < w.len() {
        return false;
    }
    let mut k: usize = 0;
    while k < w.len()
        invariant
            0 <= k <= w@.len(),
            i + w@.len() <= v@.len(),
            forall|m: int| 0 <= m < k ==> v@[i + m] == w@[m],
        decreases w@.len() - k,
    {
        if v[i + k] != w[k] {
            proof {
                assert(v@.subrange(i as int, i + w@.len())[k as int] != w@[k as int]);
            }
            return false;
        }
        k += 1;
    }
    proof {
        assert(v@.subrange(i as int, i + w@.len()) =~= w@);
    }
    true
}

/// Find the word's first stand at or after `from`.
#[verifier::loop_isolation(false)]
pub fn find_first(v: &Vec<char>, w: &Vec<char>, from: usize) -> (r: Option<usize>)
    requires
        w@.len() >= 1,
        from <= v@.len(),
    ensures
        spec_find_first(v@, w@, from as int) == match r {
            Some(p) => Some(p as int),
            None => None::<int>,
        },
        r is Some ==> from <= r->0 && r->0 + w@.len() <= v@.len(),
    decreases v@.len() - from,
{
    if v.len() - from < w.len() {
        return None;
    }
    if occurs_at(v, from, w) {
        Some(from)
    } else {
        find_first(v, w, from + 1)
    }
}

/// Find the word's last stand at or below `upto`.
#[verifier::loop_isolation(false)]
pub fn find_last(v: &Vec<char>, w: &Vec<char>, upto: usize) -> (r: Option<usize>)
    requires
        w@.len() >= 1,
        upto <= v@.len(),
    ensures
        spec_find_last(v@, w@, upto as int) == match r {
            Some(p) => Some(p as int),
            None => None::<int>,
        },
        r is Some ==> r->0 <= upto && r->0 + w@.len() <= v@.len(),
    decreases upto,
{
    if occurs_at(v, upto, w) {
        return Some(upto);
    }
    if upto == 0 {
        None
    } else {
        find_last(v, w, upto - 1)
    }
}

/// Find the word's last stand at or below `upto` that a digit follows.
#[verifier::loop_isolation(false)]
pub fn find_last_digit(v: &Vec<char>, w: &Vec<char>, upto: usize) -> (r: Option<usize>)
    requires
        w@.len() >= 1,
        upto <= v@.len(),
    ensures
        spec_find_last_digit(v@, w@, upto as int) == match r {
            Some(p) => Some(p as int),
            None => None::<int>,
        },
        r is Some ==> r->0 <= upto && r->0 + w@.len() < v@.len(),
    decreases upto,
{
    if occurs_at(v, upto, w) {
        let n = v.len();
        let idx = upto + w.len();
        if idx < n {
            let c = v[idx];
            if c >= '0' && c <= '9' {
                proof {
                    assert(crate::decimal::spec_is_digit(v@[upto + w@.len()]));
                }
                return Some(upto);
            }
            proof {
                assert(!crate::decimal::spec_is_digit(v@[upto + w@.len()]));
            }
        }
    }
    if upto == 0 {
        None
    } else {
        find_last_digit(v, w, upto - 1)
    }
}

/// Find the word's first stand at or after `from` that a digit follows.
#[verifier::loop_isolation(false)]
pub fn find_first_digit(v: &Vec<char>, w: &Vec<char>, from: usize) -> (r: Option<usize>)
    requires
        w@.len() >= 1,
        from <= v@.len(),
    ensures
        spec_find_first_digit(v@, w@, from as int) == match r {
            Some(p) => Some(p as int),
            None => None::<int>,
        },
        r is Some ==> from <= r->0 && r->0 + w@.len() < v@.len(),
    decreases v@.len() - from,
{
    if v.len() - from < w.len() {
        return None;
    }
    if occurs_at(v, from, w) {
        let n = v.len();
        let idx = from + w.len();
        if idx < n {
            let c = v[idx];
            if c >= '0' && c <= '9' {
                proof {
                    assert(crate::decimal::spec_is_digit(v@[from + w@.len()]));
                }
                return Some(from);
            }
            proof {
                assert(!crate::decimal::spec_is_digit(v@[from + w@.len()]));
            }
        }
    }
    if from == v.len() {
        return None;
    }
    find_first_digit(v, w, from + 1)
}

// ---------------------------------------------------------------------
// Track metadata and the parser and writer interfaces.
// ---------------------------------------------------------------------
/// What is known of one track, whatever format it came from.
#[derive(Clone, Debug, PartialEq, Eq)]
pub struct TrackMetadata {
    pub name: String,
    pub bpm: Option<i64>,
    pub comments: Option<Vec<String>>,
}

/// The annotation left for an algorithm after reading a list of
/// comments in order, where each parsed comment's entries replace
/// earlier ones.
pub open spec fn spec_fold_eldata(cs: Seq<Seq<char>>, a: AlgorithmE) -> Option<BpmE>
    decreases cs.len(),
{
    if cs.len() == 0 {
        None
    } else {
        let prev = spec_fold_eldata(cs.drop_last(), a);
        match spec_eldata_of(cs.last()) {
            Some(ps) => match spec_entries_get(ps, a) {
                Some(b) => Some(b),
                None => prev,
            },
            None => prev,
        }
    }
}

impl TrackMetadata {
    /// The annotations found in the comments, later comments replacing
    /// earlier ones entry by entry.
    #[verifier::loop_isolation(false)]
    pub fn comment_metadata(&self) -> (r: EllingtonData)
        ensures
            forall|a: AlgorithmE|
                r.algs.spec_get(a) == match self.comments {
                    Some(ref cs) => spec_fold_eldata(cs.deep_view(), a),
                    None => None::<BpmE>,
                },
    {
        let mut algs = AlgMap::new();
        match &self.comments {
            Some(cs) => {
                let ghost dv = cs.deep_view();
                let mut i: usize = 0;
                while i < cs.len()
                    invariant
                        0 <= i <= cs@.len(),
                        dv == cs.deep_view(),
                        dv.len() == cs@.len(),
                        forall|a: AlgorithmE|
                            algs.spec_get(a) == spec_fold_eldata(dv.take(i as int), a),
                    decreases cs@.len() - i,
                {
                    proof {
                        assert(dv.take(i + 1).drop_last() =~= dv.take(i as int));
                        assert(dv.take(i + 1).last() == dv[i as int]);
                        assert(dv[i as int] == cs@[i as int]@);
                    }
                    match EllingtonData::parse(&cs[i]) {
                        Some(ed) => {
                            algs.append(&ed.algs);
                        },
                        None => {},
                    }
                    i += 1;
                }
                proof {
                    assert(dv.take(dv.len() as int) =~= dv);
                }
            },
            None => {},
        }
        EllingtonData { algs }
    }

    /// The annotations found in the track's title.
    pub fn title_metadata(&self) -> (r: EllingtonData)
        ensures
            forall|a: AlgorithmE|
                r.algs.spec_get(a) == match spec_eldata_of(self.name@) {
                    Some(ps) => spec_entries_get(ps, a),
                    None => None::<BpmE>,
                },
    {
        match EllingtonData::parse(&self.name) {
            Some(ed) => ed,
            None => EllingtonData::empty(),
        }
    }

    /// The comments' annotations, under the older name.
    pub fn as_ellington_metadata(&self) -> (r: EllingtonData)
        ensures
            forall|a: AlgorithmE|
                r.algs.spec_get(a) == match self.comments {
                    Some(ref cs) => spec_fold_eldata(cs.deep_view(), a),
                    None => None::<BpmE>,
                },
    {
        self.comment_metadata()
    }
}

/// The line-wise scan `parse_lines` performs: each line may set the
/// title, set the tempo, or add a comment, the first of those that
/// recognises it winning; later titles and tempos replace earlier ones.
pub open spec fn spec_scan_lines<P: MetadataParser>(lines: Seq<Seq<char>>) -> (
    Option<Seq<char>>,
    Option<i64>,
    Seq<Seq<char>>,
)
    decreases lines.len(),
{
    if lines.len() == 0 {
        (None::<Seq<char>>, None::<i64>, Seq::<Seq<char>>::empty())
    } else {
        let (n, b, cs) = spec_scan_lines::<P>(lines.drop_last());
        let l = lines.last();
        if P::spec_title(l) is Some {
            (P::spec_title(l), b, cs)
        } else if P::spec_bpm(l) is Some {
            (n, P::spec_bpm(l), cs)
        } else {
            match P::spec_comment(l) {
                Some(c) => (n, b, cs.push(c)),
                None => (n, b, cs),
            }
        }
    }
}

/// A reader of one metadata tool's listing output.
pub trait MetadataParser: Sized {
    /// The title a line announces, if any.
    spec fn spec_title(line: Seq<char>) -> Option<Seq<char>>;

    /// The tempo a line announces, if any.
    spec fn spec_bpm(line: Seq<char>) -> Option<i64>;

    /// The comment a line announces, if any.
    spec fn spec_comment(line: Seq<char>) -> Option<Seq<char>>;

    fn parse_title(line: &String) -> (r: Option<String>)
        ensures
            match r {
                Some(t) => Self::spec_title(line@) == Some(t@),
                None => Self::spec_title(line@) is None,
            },
    ;

    fn parse_bpm(line: &String) -> (r: Option<i64>)
        ensures
            r == Self::spec_bpm(line@),
    ;

    fn parse_comment(line: &String) -> (r: Option<String>)
        ensures
            match r {
                Some(c) => Self::spec_comment(line@) == Some(c@),
                None => Self::spec_comment(line@) is None,
            },
    ;

}

/// Scan a listing with parser `P`: the metadata is what the lines
/// announce, and a track without a title has no metadata at all.
#[verifier::loop_isolation(false)]
pub fn parse_lines<P: MetadataParser>(lines: Vec<String>) -> (r: Option<TrackMetadata>)
    ensures
        ({
            let (n, b, cs) = spec_scan_lines::<P>(lines.deep_view());
            match n {
                None => r is None,
                Some(nm) => r is Some && r->0.name@ == nm && r->0.bpm == b && (match r
                    ->0.comments {
                    Some(ref rcs) => cs.len() > 0 && rcs.deep_view() == cs,
                    None => cs.len() == 0,
                }),
            }
        }),
{
    let ghost dv = lines.deep_view();
    let mut name: Option<String> = None;
    let mut bpm: Option<i64> = None;
    let mut comments: Vec<String> = Vec::new();
    let mut i: usize = 0;
    while i < lines.len()
        invariant
            0 <= i <= lines@.len(),
            dv == lines.deep_view(),
            dv.len() == lines@.len(),
            ({
                let (n, b, cs) = spec_scan_lines::<P>(dv.take(i as int));
                &&& (match name {
                    Some(ref nm) => n == Some(nm@),
                    None => n is None,
                })
                &&& bpm == b
                &&& comments.deep_view() == cs
            }),
        decreases lines@.len() - i,
    {
        proof {
            assert(dv.take(i + 1).drop_last() =~= dv.take(i as int));
            assert(dv.take(i + 1).last() == dv[i as int]);
            assert(dv[i as int] == lines@[i as int]@);
        }
        let ghost pre = comments.deep_view();
        if let Some(t) = P::parse_title(&lines[i]) {
            name = Some(t);
        } else if let Some(b) = P::parse_bpm(&lines[i]) {
            bpm = Some(b);
        } else if let Some(c) = P::parse_comment(&lines[i]) {
            comments.push(c);
            proof {
                assert(comments.deep_view() =~= pre.push(c@));
            }
        }
        i += 1;
    }
    proof {
        assert(dv.take(dv.len() as int) =~= dv);
    }
    match name {
        Some(name) => Some(
            TrackMetadata {
                name,
                bpm,
                comments: if comments.len() == 0 {
                    None
                } else {
                    Some(comments)
                },
            },
        ),
        None => None,
    }
}

pub type WriteResult = Option<()>;

/// A writer of tempo annotations into a file's tags. Writing touches the
/// file system, so implementations live with the application.
pub trait MetadataWriter {
    fn write_ellington_data(location: &str, ed: &EllingtonData) -> WriteResult;
}

} // verus!
