//! Tempo annotations embedded in track comments.
//!
//! A comment may carry one data block of the form `[ed| name~bpm, ... |]`.
//! A block opens with `[ed|` and closes with the last `|]` that follows it
//! with no intervening newline; inside, entries pair an algorithm name with
//! a tempo, written `name~bpm` and separated by commas, with blanks allowed
//! around names and tempos.
use vstd::prelude::*;

verus! {

use crate::decimal::spec_is_digit;
use crate::decimal::spec_parse_i64;
use crate::types::AlgorithmE;
use crate::types::BpmE;
use crate::types::UpdateBehaviour;
use crate::types::spec_algorithm_of_char;
use crate::types::spec_algorithm_name;
use crate::types::spec_bpm_text;

/// Why updating comment data failed.
#[derive(Clone, Copy, Debug, PartialEq, Eq, Structural)]
pub enum UpdateError {
    NoDataInComment,
    FailedToSerialise,
}

pub type UpdateResult<T> = Result<T, UpdateError>;

/// The tempo recorded for each algorithm, at most one entry per algorithm.
#[derive(Clone, Copy, Debug, PartialEq, Eq)]
pub struct AlgMap {
    pub actual: Option<BpmE>,
    pub naive: Option<BpmE>,
    pub bellson: Option<BpmE>,
    pub unknown: Option<BpmE>,
}

impl AlgMap {
    /// The entry recorded for an algorithm.
    pub open spec fn spec_get(self, a: AlgorithmE) -> Option<BpmE> {
        match a {
            AlgorithmE::Actual => self.actual,
            AlgorithmE::Naive => self.naive,
            AlgorithmE::Bellson => self.bellson,
            AlgorithmE::Unknown => self.unknown,
        }
    }

    /// The entries in algorithm order, as they are written out.
    pub open spec fn spec_entries(self) -> Seq<(AlgorithmE, BpmE)> {
        opt_entry(AlgorithmE::Actual, self.actual) + opt_entry(AlgorithmE::Naive, self.naive)
            + opt_entry(AlgorithmE::Bellson, self.bellson) + opt_entry(
            AlgorithmE::Unknown,
            self.unknown,
        )
    }

    /// A map with no entries.
    pub fn new() -> (r: AlgMap)
        ensures
            forall|a: AlgorithmE| r.spec_get(a) is None,
    {
        AlgMap { actual: None, naive: None, bellson: None, unknown: None }
    }

    /// Record a tempo for an algorithm, replacing any earlier entry.
    pub fn insert(&mut self, a: AlgorithmE, b: BpmE)
        ensures
            forall|x: AlgorithmE|
                final (self).spec_get(x) == if x == a {
                    Some(b)
                } else {
                    old(self).spec_get(x)
                },
    {
        match a {
            AlgorithmE::Actual => self.actual = Some(b),
            AlgorithmE::Naive => self.naive = Some(b),
            AlgorithmE::Bellson => self.bellson = Some(b),
            AlgorithmE::Unknown => self.unknown = Some(b),
        }
    }

    /// The entry recorded for an algorithm.
    pub fn get(&self, a: AlgorithmE) -> (r: Option<BpmE>)
        ensures
            r == self.spec_get(a),
    {
        match a {
            AlgorithmE::Actual => self.actual,
            AlgorithmE::Naive => self.naive,
            AlgorithmE::Bellson => self.bellson,
            AlgorithmE::Unknown => self.unknown,
        }
    }

    /// Take every entry of `other`, replacing entries already present.
    pub fn append(&mut self, other: &AlgMap)
        ensures
            forall|x: AlgorithmE|
                final (self).spec_get(x) == if other.spec_get(x) is Some {
                    other.spec_get(x)
                } else {
                    old(self).spec_get(x)
                },
    {
        if let Some(b) = other.actual {
            self.actual = Some(b);
        }
        if let Some(b) = other.naive {
            self.naive = Some(b);
        }
        if let Some(b) = other.bellson {
            self.bellson = Some(b);
        }
        if let Some(b) = other.unknown {
            self.unknown = Some(b);
        }
    }

    /// Whether the map holds no entry at all.
    pub fn is_empty(&self) -> (r: bool)
        ensures
            r == forall|a: AlgorithmE| self.spec_get(a) is None,
    {
        let r = self.actual.is_none() && self.naive.is_none() && self.bellson.is_none()
            && self.unknown.is_none();
        proof {
            if r {
                assert(forall|a: AlgorithmE| self.spec_get(a) is None);
            } else {
                if self.actual is Some {
                    assert(self.spec_get(AlgorithmE::Actual) is Some);
                } else if self.naive is Some {
                    assert(self.spec_get(AlgorithmE::Naive) is Some);
                } else if self.bellson is Some {
                    assert(self.spec_get(AlgorithmE::Bellson) is Some);
                } else {
                    assert(self.spec_get(AlgorithmE::Unknown) is Some);
                }
            }
        }
        r
    }
}

/// One optional entry as a (possibly empty) entry sequence.
pub open spec fn opt_entry(a: AlgorithmE, b: Option<BpmE>) -> Seq<(AlgorithmE, BpmE)> {
    match b {
        Some(v) => seq![(a, v)],
        None => seq![],
    }
}

/// The text of one entry: minimal writes the name's initial, full writes
/// a blank and the whole name; then a tilde and the tempo.
pub open spec fn spec_entry_text(e: (AlgorithmE, BpmE), minimal: bool) -> Seq<char> {
    if minimal {
        seq![spec_algorithm_name(e.0)[0]] + seq!['~'] + spec_bpm_text(e.1)
    } else {
        seq![' '] + spec_algorithm_name(e.0) + seq!['~'] + spec_bpm_text(e.1)
    }
}

/// Entry texts joined with commas.
pub open spec fn spec_joined_entries(es: Seq<(AlgorithmE, BpmE)>, minimal: bool) -> Seq<char>
    decreases es.len(),
{
    if es.len() == 0 {
        seq![]
    } else if es.len() == 1 {
        spec_entry_text(es[0], minimal)
    } else {
        spec_joined_entries(es.drop_last(), minimal) + seq![','] + spec_entry_text(
            es.last(),
            minimal,
        )
    }
}

/// The whole serialised block for a map.
pub open spec fn spec_format(m: AlgMap, minimal: bool) -> Seq<char> {
    seq!['[', 'e', 'd', '|'] + spec_joined_entries(m.spec_entries(), minimal) + (if minimal {
        seq![]
    } else {
        seq![' ']
    }) + seq!['|', ']']
}

/// One readable line per entry: `Algorithm: name, Tempo: bpm` and a newline.
pub open spec fn spec_readable_line(e: (AlgorithmE, BpmE)) -> Seq<char> {
    "Algorithm: "@ + spec_algorithm_name(e.0) + ", Tempo: "@ + spec_bpm_text(e.1) + seq!['\n']
}

/// The readable lines of all entries, in algorithm order.
pub open spec fn spec_readable(es: Seq<(AlgorithmE, BpmE)>) -> Seq<char>
    decreases es.len(),
{
    if es.len() == 0 {
        seq![]
    } else {
        spec_readable(es.drop_last()) + spec_readable_line(es.last())
    }
}

/// A one-character string holding the initial of an algorithm name.
fn initial_str(a: AlgorithmE) -> (r: &'static str)
    ensures
        r@ =~= seq![spec_algorithm_name(a)[0]],
{
    proof {
        reveal_strlit("a");
        reveal_strlit("n");
        reveal_strlit("b");
        reveal_strlit("u");
    }
    match a {
        AlgorithmE::Actual => "a",
        AlgorithmE::Naive => "n",
        AlgorithmE::Bellson => "b",
        AlgorithmE::Unknown => "u",
    }
}

/// Tempo annotations for a track: one optional entry per algorithm.
#[derive(Clone, Debug, PartialEq, Eq)]
pub struct EllingtonData {
    pub algs: AlgMap,
}

impl EllingtonData {
    /// Data with no entries.
    pub fn empty() -> (r: EllingtonData)
        ensures
            forall|a: AlgorithmE| r.algs.spec_get(a) is None,
    {
        EllingtonData { algs: AlgMap::new() }
    }

    /// Data holding a single entry.
    pub fn with_algorithm(a: AlgorithmE, b: BpmE) -> (r: EllingtonData)
        ensures
            forall|x: AlgorithmE|
                r.algs.spec_get(x) == if x == a {
                    Some(b)
                } else {
                    None::<BpmE>
                },
    {
        let mut map = AlgMap::new();
        map.insert(a, b);
        EllingtonData { algs: map }
    }

    /// Data taking every entry of `rhs`, and entries of `self` where
    /// `rhs` has none.
    pub fn merge(&self, rhs: &EllingtonData) -> (r: EllingtonData)
        ensures
            forall|x: AlgorithmE|
                r.algs.spec_get(x) == if rhs.algs.spec_get(x) is Some {
                    rhs.algs.spec_get(x)
                } else {
                    self.algs.spec_get(x)
                },
    {
        let mut map = self.algs;
        map.append(&rhs.algs);
        EllingtonData { algs: map }
    }

    /// The entries in the order they are written, for iteration.
    pub fn entries(&self) -> (r: Vec<(AlgorithmE, BpmE)>)
        ensures
            r@ == self.algs.spec_entries(),
    {
        let mut r: Vec<(AlgorithmE, BpmE)> = Vec::new();
        if let Some(b) = self.algs.actual {
            r.push((AlgorithmE::Actual, b));
        }
        if let Some(b) = self.algs.naive {
            r.push((AlgorithmE::Naive, b));
        }
        if let Some(b) = self.algs.bellson {
            r.push((AlgorithmE::Bellson, b));
        }
        if let Some(b) = self.algs.unknown {
            r.push((AlgorithmE::Unknown, b));
        }
        proof {
            assert(r@ =~= self.algs.spec_entries());
        }
        r
    }

    /// Serialise the entries as one `[ed|...|]` block; this always succeeds.
    #[verifier::loop_isolation(false)]
    #[verifier::rlimit(100)]
    pub fn format(&self, minimal: bool) -> (r: UpdateResult<String>)
        ensures
            r is Ok,
            r->Ok_0@ == spec_format(self.algs, minimal),
    {
        let entries = self.entries();
        let ghost es = self.algs.spec_entries();
        let mut s = String::from_str("[ed|");
        proof {
            reveal_strlit("[ed|");
            assert(s@ =~= seq!['[', 'e', 'd', '|'] + spec_joined_entries(es.take(0), minimal));
        }
        let mut i: usize = 0;
        while i < entries.len()
            invariant
                0 <= i <= entries.len(),
                s@ == seq!['[', 'e', 'd', '|'] + spec_joined_entries(es.take(i as int), minimal),
            decreases entries.len() - i,
        {
            if i > 0 {
                s.append(",");
            }
            let (a, b) = entries[i];
            if minimal {
                s.append(initial_str(a));
            } else {
                s.append(" ");
                s.append(a.print());
            }
            s.append("~");
            let t = b.to_text();
            s.append(t.as_str());
            proof {
                reveal_strlit(",");
                reveal_strlit(" ");
                reveal_strlit("~");
                assert(es.take(i + 1).drop_last() =~= es.take(i as int));
                assert(es.take(i + 1).last() == es[i as int]);
                if i == 0 {
                    assert(es.take(1) =~= seq![es[0]]);
                }
                assert(s@ =~= seq!['[', 'e', 'd', '|'] + spec_joined_entries(
                    es.take(i + 1),
                    minimal,
                ));
            }
            i += 1;
        }
        if minimal {
            s.append("|]");
        } else {
            s.append(" |]");
        }
        proof {
            reveal_strlit("|]");
            reveal_strlit(" |]");
            assert(es.take(es.len() as int) =~= es);
            assert(s@ =~= spec_format(self.algs, minimal));
        }
        Ok(s)
    }

    /// Render the entries as readable lines, one per algorithm.
    #[verifier::loop_isolation(false)]
    pub fn format_readable(&self) -> (r: Option<String>)
        ensures
            r is Some,
            r->0@ == spec_readable(self.algs.spec_entries()),
    {
        let entries = self.entries();
        let ghost es = self.algs.spec_entries();
        let mut s = String::new();
        let mut i: usize = 0;
        while i < entries.len()
            invariant
                0 <= i <= entries.len(),
                s@ == spec_readable(es.take(i as int)),
            decreases entries.len() - i,
        {
            let (a, b) = entries[i];
            s.append("Algorithm: ");
            s.append(a.print());
            s.append(", Tempo: ");
            let t = b.to_text();
            s.append(t.as_str());
            s.append("\n");
            proof {
                reveal_strlit("\n");
                assert("\n"@ =~= seq!['\n']);
                assert(es.take(i + 1).drop_last() =~= es.take(i as int));
                assert(es.take(i + 1).last() == es[i as int]);
                assert(s@ =~= spec_readable(es.take(i + 1)));
            }
            i += 1;
        }
        proof {
            assert(es.take(es.len() as int) =~= es);
        }
        Some(s)
    }
}

// ---------------------------------------------------------------------
// Locating a data block inside a comment.
// ---------------------------------------------------------------------
/// Whether `[ed|` opens at position `i`.
pub open spec fn spec_is_open_at(s: Seq<char>, i: int) -> bool {
    &&& 0 <= i
    &&& i + 4 <= s.len()
    &&& s[i] == '['
    &&& s[i + 1] == 'e'
    &&& s[i + 2] == 'd'
    &&& s[i + 3] == '|'
}

/// Whether `|]` stands at position `j`.
pub open spec fn spec_is_close_at(s: Seq<char>, j: int) -> bool {
    &&& 0 <= j
    &&& j + 2 <= s.len()
    &&& s[j] == '|'
    &&& s[j + 1] == ']'
}

/// No newline anywhere in `s[a..b]`.
pub open spec fn spec_no_newline(s: Seq<char>, a: int, b: int) -> bool {
    forall|k: int| a <= k < b ==> #[trigger] s[k] != '\n'
}

/// Whether `j` closes a block opened at `i`: a `|]` after the opening,
/// with no newline between the opening and it.
pub open spec fn spec_is_close_for(s: Seq<char>, i: int, j: int) -> bool {
    &&& spec_is_close_at(s, j)
    &&& i + 4 <= j
    &&& spec_no_newline(s, i + 4, j)
}

/// Whether a data block starts at `i`.
pub open spec fn spec_has_block_at(s: Seq<char>, i: int) -> bool {
    &&& spec_is_open_at(s, i)
    &&& exists|j: int| spec_is_close_for(s, i, j)
}

/// Whether the comment holds a data block anywhere.
pub open spec fn spec_has_block(s: Seq<char>) -> bool {
    exists|i: int| spec_has_block_at(s, i)
}

/// The bounds of the block a comment update works on: the first position
/// where a block starts, closed as late as possible. The block text is
/// `s[i..j+2]`.
pub open spec fn spec_block_bounds(s: Seq<char>, i: int, j: int) -> bool {
    &&& spec_has_block_at(s, i)
    &&& forall|i2: int| 0 <= i2 < i ==> !spec_has_block_at(s, i2)
    &&& spec_is_close_for(s, i, j)
    &&& forall|j2: int| j < j2 ==> !spec_is_close_for(s, i, j2)
}

/// The block bounds are unique: there is at most one leftmost,
/// greedily-closed block.
pub proof fn lemma_block_bounds_unique(s: Seq<char>, i1: int, j1: int, i2: int, j2: int)
    requires
        spec_block_bounds(s, i1, j1),
        spec_block_bounds(s, i2, j2),
    ensures
        i1 == i2,
        j1 == j2,
{
    if i1 < i2 {
        assert(!spec_has_block_at(s, i1));
    }
    if i2 < i1 {
        assert(!spec_has_block_at(s, i2));
    }
    if j1 < j2 {
        assert(!spec_is_close_for(s, i1, j2));
    }
    if j2 < j1 {
        assert(!spec_is_close_for(s, i2, j1));
    }
}

/// The bounds of the block a comment holds, if it holds one.
pub open spec fn spec_block_of(s: Seq<char>) -> Option<(int, int)> {
    if spec_has_block(s) {
        Some(choose|ij: (int, int)| spec_block_bounds(s, ij.0, ij.1))
    } else {
        None
    }
}

/// The entries a comment's data block holds: nothing when there is no
/// block or the block does not parse.
pub open spec fn spec_eldata_of(s: Seq<char>) -> Option<Seq<(AlgorithmE, BpmE)>> {
    match spec_block_of(s) {
        None => None,
        Some((i, j)) => spec_parse_block(s, i, j),
    }
}

/// The map that a sequence of read entries builds up.
pub open spec fn spec_algmap_of(ps: Seq<(AlgorithmE, BpmE)>) -> AlgMap {
    AlgMap {
        actual: spec_entries_get(ps, AlgorithmE::Actual),
        naive: spec_entries_get(ps, AlgorithmE::Naive),
        bellson: spec_entries_get(ps, AlgorithmE::Bellson),
        unknown: spec_entries_get(ps, AlgorithmE::Unknown),
    }
}

/// What `parse` yields on a comment, as one value.
pub open spec fn spec_parse_result(s: Seq<char>) -> Option<EllingtonData> {
    match spec_eldata_of(s) {
        Some(ps) => Some(EllingtonData { algs: spec_algmap_of(ps) }),
        None => None,
    }
}

/// The data parsed out of each comment of a list that holds any,
/// in list order.
pub open spec fn spec_eldata_list(cs: Seq<Seq<char>>) -> Seq<EllingtonData>
    decreases cs.len(),
{
    if cs.len() == 0 {
        seq![]
    } else {
        let rest = spec_eldata_list(cs.drop_last());
        match spec_parse_result(cs.last()) {
            Some(ed) => rest.push(ed),
            None => rest,
        }
    }
}

/// Concrete block bounds agree with `spec_block_of`.
pub proof fn lemma_block_of(s: Seq<char>, i: int, j: int)
    requires
        spec_block_bounds(s, i, j),
    ensures
        spec_block_of(s) == Some((i, j)),
{
    assert(spec_has_block(s));
    assert(exists|ij: (int, int)| spec_block_bounds(s, ij.0, ij.1)) by {
        let w = (i, j);
        assert(spec_block_bounds(s, w.0, w.1));
    }
    let ij = choose|ij: (int, int)| spec_block_bounds(s, ij.0, ij.1);
    lemma_block_bounds_unique(s, i, j, ij.0, ij.1);
}

/// Find the block bounds in a comment, if a block is present.
#[verifier::loop_isolation(false)]
fn find_block(v: &Vec<char>) -> (r: Option<(usize, usize)>)
    ensures
        match r {
            None => !spec_has_block(v@),
            Some((i, j)) => spec_block_bounds(v@, i as int, j as int),
        },
{
    let n = v.len();
    let mut i: usize = 0;
    while i < n
        invariant
            0 <= i <= n == v@.len(),
            forall|i2: int| 0 <= i2 < i ==> !spec_has_block_at(v@, i2),
        decreases n - i,
    {
        if n - i >= 4 && v[i] == '[' && v[i + 1] == 'e' && v[i + 2] == 'd' && v[i + 3] == '|' {
            // scan the rest of the line for the last closing `|]`
            let mut best: Option<usize> = None;
            let mut k: usize = i + 4;
            let mut newline = false;
            while k < n && !newline
                invariant
                    i + 4 <= k <= n,
                    !newline ==> spec_no_newline(v@, i + 4, k as int),
                    newline ==> k < n && v@[k as int] == '\n' && spec_no_newline(
                        v@,
                        i + 4,
                        k as int,
                    ),
                    match best {
                        Some(b) => spec_is_close_for(v@, i as int, b as int) && b < k,
                        None => true,
                    },
                    forall|j2: int|
                        i + 4 <= j2 < k && spec_is_close_for(v@, i as int, j2) ==> best is Some
                            && j2 <= best->0,
                decreases n - k,
            {
                if v[k] == '\n' {
                    newline = true;
                    break;
                } else {
                    if k + 1 < n && v[k] == '|' && v[k + 1] == ']' {
                        best = Some(k);
                    }
                    k += 1;
                }
            }
            match best {
                Some(j) => {
                    proof {
                        assert forall|j2: int| j < j2 implies !spec_is_close_for(
                            v@,
                            i as int,
                            j2,
                        ) by {
                            if spec_is_close_for(v@, i as int, j2) {
                                if j2 < k {
                                } else if newline {
                                    assert(v@[k as int] == '\n');
                                    assert(j2 > k);
                                } else {
                                    assert(j2 + 2 <= n);
                                    assert(j2 < k);
                                }
                            }
                        }
                    }
                    return Some((i, j));
                },
                None => {
                    proof {
                        assert forall|j2: int| !spec_is_close_for(v@, i as int, j2) by {
                            if spec_is_close_for(v@, i as int, j2) {
                                if newline {
                                    assert(j2 > k);
                                    assert(v@[k as int] == '\n');
                                } else {
                                    assert(j2 < k);
                                }
                            }
                        }
                        assert(!spec_has_block_at(v@, i as int));
                    }
                },
            }
        }
        proof {
            assert(!spec_has_block_at(v@, i as int));
        }
        i += 1;
    }
    proof {
        assert forall|i2: int| !spec_has_block_at(v@, i2) by {
            if 0 <= i2 < n {
            } else {
                assert(!spec_is_open_at(v@, i2));
            }
        }
    }
    None
}

// ---------------------------------------------------------------------
// Reading the entries out of a block.
// ---------------------------------------------------------------------
/// Blank characters allowed around names and tempos.
pub open spec fn spec_is_ws(c: char) -> bool {
    c == ' ' || c == '\t' || c == '\r' || c == '\n'
}

/// ASCII letters, the characters an algorithm name is made of.
pub open spec fn spec_is_letter(c: char) -> bool {
    ('a' <= c && c <= 'z') || ('A' <= c && c <= 'Z')
}

/// The first position at or after `c` holding a non-blank, capped at `end`.
pub open spec fn spec_skip_ws(s: Seq<char>, c: int, end: int) -> int
    decreases end - c,
{
    if c < end && 0 <= c < s.len() && spec_is_ws(s[c]) {
        spec_skip_ws(s, c + 1, end)
    } else {
        c
    }
}

/// The end of the letter run starting at `c`, capped at `end`.
pub open spec fn spec_letters_end(s: Seq<char>, c: int, end: int) -> int
    decreases end - c,
{
    if c < end && 0 <= c < s.len() && spec_is_letter(s[c]) {
        spec_letters_end(s, c + 1, end)
    } else {
        c
    }
}

/// The end of the digit run starting at `c`, capped at `end`.
pub open spec fn spec_digits_end(s: Seq<char>, c: int, end: int) -> int
    decreases end - c,
{
    if c < end && 0 <= c < s.len() && spec_is_digit(s[c]) {
        spec_digits_end(s, c + 1, end)
    } else {
        c
    }
}

/// One entry read from position `c`: blanks, a non-empty letter run, blanks,
/// a tilde, blanks, then either a digit run or the literal `na`, then
/// blanks. Yields the entry and the position after it, or nothing.
pub open spec fn spec_read_entry(s: Seq<char>, c: int, end: int) -> Option<
    (AlgorithmE, BpmE, int),
> {
    let c1 = spec_skip_ws(s, c, end);
    let d = spec_letters_end(s, c1, end);
    if d == c1 {
        None
    } else {
        let c2 = spec_skip_ws(s, d, end);
        if !(c2 < end && s[c2] == '~') {
            None
        } else {
            let c3 = spec_skip_ws(s, c2 + 1, end);
            let e = spec_digits_end(s, c3, end);
            let a = spec_algorithm_of_char(s[c1]);
            if e > c3 {
                let b = match spec_parse_i64(s.subrange(c3, e)) {
                    Some(n) => BpmE::Bpm(n),
                    None => BpmE::NA,
                };
                Some((a, b, spec_skip_ws(s, e, end)))
            } else if c3 + 2 <= end && s[c3] == 'n' && s[c3 + 1] == 'a' {
                Some((a, BpmE::NA, spec_skip_ws(s, c3 + 2, end)))
            } else {
                None
            }
        }
    }
}

/// The entries following a first one: each a comma and another entry.
/// Yields the entries read and the position where reading stopped; a
/// comma not followed by a well-formed entry is left unread.
pub open spec fn spec_read_more(s: Seq<char>, c: int, end: int) -> (Seq<(AlgorithmE, BpmE)>, int)
    decreases end - c
        when 0 <= c <= end <= s.len()
{
    if 0 <= c < end && s[c] == ',' {
        match spec_read_entry(s, c + 1, end) {
            Some((a, b, c2)) => {
                if c < c2 <= end {
                    let (rest, fin) = spec_read_more(s, c2, end);
                    (seq![(a, b)] + rest, fin)
                } else {
                    (seq![], c)
                }
            },
            None => (seq![], c),
        }
    } else {
        (seq![], c)
    }
}

/// All entries of a block body starting at `c`: one entry then the rest,
/// or no entries at all, with the stop position.
pub open spec fn spec_read_entries(s: Seq<char>, c: int, end: int) -> (
    Seq<(AlgorithmE, BpmE)>,
    int,
) {
    match spec_read_entry(s, c, end) {
        Some((a, b, c2)) => {
            if c < c2 <= end {
                let (rest, fin) = spec_read_more(s, c2, end);
                (seq![(a, b)] + rest, fin)
            } else {
                (seq![], c)
            }
        },
        None => (seq![], c),
    }
}

/// The entry a sequence of read entries leaves for an algorithm:
/// the last one read wins.
pub open spec fn spec_entries_get(ps: Seq<(AlgorithmE, BpmE)>, a: AlgorithmE) -> Option<BpmE>
    decreases ps.len(),
{
    if ps.len() == 0 {
        None
    } else if ps.last().0 == a {
        Some(ps.last().1)
    } else {
        spec_entries_get(ps.drop_last(), a)
    }
}

/// What parsing the block `s[i..j+2]` yields: the entries when the block
/// body is well-formed and immediately followed by `|]`, else nothing.
pub open spec fn spec_parse_block(s: Seq<char>, i: int, j: int) -> Option<
    Seq<(AlgorithmE, BpmE)>,
> {
    let (ps, fin) = spec_read_entries(s, i + 4, j + 2);
    if fin + 2 <= j + 2 && s[fin] == '|' && s[fin + 1] == ']' {
        Some(ps)
    } else {
        None
    }
}

// Executable scanners, each mirroring its specification.
#[verifier::loop_isolation(false)]
fn skip_ws(v: &Vec<char>, c: usize, end: usize) -> (r: usize)
    requires
        c <= end <= v@.len(),
    ensures
        r == spec_skip_ws(v@, c as int, end as int),
        c <= r <= end,
    decreases end - c,
{
    if c < end && (v[c] == ' ' || v[c] == '\t' || v[c] == '\r' || v[c] == '\n') {
        skip_ws(v, c + 1, end)
    } else {
        c
    }
}

#[verifier::loop_isolation(false)]
fn letters_end(v: &Vec<char>, c: usize, end: usize) -> (r: usize)
    requires
        c <= end <= v@.len(),
    ensures
        r == spec_letters_end(v@, c as int, end as int),
        c <= r <= end,
    decreases end - c,
{
    if c < end && ((v[c] >= 'a' && v[c] <= 'z') || (v[c] >= 'A' && v[c] <= 'Z')) {
        letters_end(v, c + 1, end)
    } else {
        c
    }
}

#[verifier::loop_isolation(false)]
pub(crate) fn digits_end(v: &Vec<char>, c: usize, end: usize) -> (r: usize)
    requires
        c <= end <= v@.len(),
    ensures
        r == spec_digits_end(v@, c as int, end as int),
        c <= r <= end,
    decreases end - c,
{
    if c < end && v[c] >= '0' && v[c] <= '9' {
        proof {
            assert(spec_is_digit(v@[c as int]));
        }
        digits_end(v, c + 1, end)
    } else {
        proof {
            if c < end {
                assert(!spec_is_digit(v@[c as int]));
            }
        }
        digits_end_done(v, c, end)
    }
}

// split so that the non-digit fact is established before unfolding
fn digits_end_done(v: &Vec<char>, c: usize, end: usize) -> (r: usize)
    requires
        c <= end <= v@.len(),
        c < end ==> !spec_is_digit(v@[c as int]),
    ensures
        r == spec_digits_end(v@, c as int, end as int),
        r == c,
{
    c
}

/// Read one entry at `c`, as `spec_read_entry` describes.
fn read_entry(v: &Vec<char>, c: usize, end: usize) -> (r: Option<(AlgorithmE, BpmE, usize)>)
    requires
        c <= end <= v@.len(),
    ensures
        spec_read_entry(v@, c as int, end as int) == match r {
            Some((a, b, c2)) => Some((a, b, c2 as int)),
            None => None::<(AlgorithmE, BpmE, int)>,
        },
        r is Some ==> c < (r->0).2 && (r->0).2 <= end,
{
    let c1 = skip_ws(v, c, end);
    let d = letters_end(v, c1, end);
    if d == c1 {
        return None;
    }
    let c2 = skip_ws(v, d, end);
    if !(c2 < end && v[c2] == '~') {
        return None;
    }
    let c3 = skip_ws(v, c2 + 1, end);
    let e = digits_end(v, c3, end);
    let a = match v[c1] {
        'a' | 'A' => AlgorithmE::Actual,
        'n' | 'N' => AlgorithmE::Naive,
        'b' | 'B' => AlgorithmE::Bellson,
        _ => AlgorithmE::Unknown,
    };
    if e > c3 {
        let b = match crate::decimal::parse_i64_range(v, c3, e) {
            Some(n) => BpmE::Bpm(n),
            None => BpmE::NA,
        };
        let fin = skip_ws(v, e, end);
        Some((a, b, fin))
    } else if end - c3 >= 2 && v[c3] == 'n' && v[c3 + 1] == 'a' {
        let fin = skip_ws(v, c3 + 2, end);
        Some((a, BpmE::NA, fin))
    } else {
        None
    }
}

/// Read the comma-separated entries after a first one, as
/// `spec_read_more` describes, appending them to `acc`.
fn read_more(v: &Vec<char>, c: usize, end: usize, acc: &mut Vec<(AlgorithmE, BpmE)>) -> (r: usize)
    requires
        c <= end <= v@.len(),
    ensures
        ({
            let (ps, fin) = spec_read_more(v@, c as int, end as int);
            final (acc)@ == old(acc)@ + ps && r as int == fin
        }),
    decreases end - c,
{
    if c < end && v[c] == ',' {
        match read_entry(v, c + 1, end) {
            Some((a, b, c2)) => {
                acc.push((a, b));
                let r = read_more(v, c2, end, acc);
                proof {
                    let (ps, fin) = spec_read_more(v@, c as int, end as int);
                    let (rest, _) = spec_read_more(v@, c2 as int, end as int);
                    assert(ps =~= seq![(a, b)] + rest);
                    assert(final (acc)@ =~= old(acc)@ + ps);
                }
                r
            },
            None => {
                proof {
                    assert(final (acc)@ =~= old(acc)@ + Seq::<(AlgorithmE, BpmE)>::empty());
                }
                c
            },
        }
    } else {
        proof {
            assert(final (acc)@ =~= old(acc)@ + Seq::<(AlgorithmE, BpmE)>::empty());
        }
        c
    }
}

/// Read all entries of a block body, as `spec_read_entries` describes.
fn read_entries(v: &Vec<char>, c: usize, end: usize) -> (r: (Vec<(AlgorithmE, BpmE)>, usize))
    requires
        c <= end <= v@.len(),
    ensures
        ({
            let (ps, fin) = spec_read_entries(v@, c as int, end as int);
            r.0@ == ps && r.1 as int == fin
        }),
{
    let mut acc: Vec<(AlgorithmE, BpmE)> = Vec::new();
    match read_entry(v, c, end) {
        Some((a, b, c2)) => {
            acc.push((a, b));
            let fin = read_more(v, c2, end, &mut acc);
            proof {
                let (ps, _) = spec_read_entries(v@, c as int, end as int);
                let (rest, _) = spec_read_more(v@, c2 as int, end as int);
                assert(ps =~= seq![(a, b)] + rest);
                assert(acc@ =~= ps);
            }
            (acc, fin)
        },
        None => (acc, c),
    }
}

impl EllingtonData {
    /// Read the tempo annotations out of a comment: locate the data
    /// block, then read its entries; the last entry for an algorithm
    /// wins. Yields nothing when the comment has no block or the block
    /// does not parse.
    #[verifier::loop_isolation(false)]
    pub fn parse(comment: &String) -> (r: Option<EllingtonData>)
        ensures
            !spec_has_block(comment@) ==> r is None,
            forall|i: int, j: int|
                spec_block_bounds(comment@, i, j) ==> match spec_parse_block(comment@, i, j) {
                    Some(ps) => r is Some && forall|a: AlgorithmE|
                        r->0.algs.spec_get(a) == spec_entries_get(ps, a),
                    None => r is None,
                },
            r == spec_parse_result(comment@),
    {
        let v = crate::types::chars_of(comment.as_str());
        match find_block(&v) {
            None => None,
            Some((i, j)) => {
                proof {
                    lemma_block_of(comment@, i as int, j as int);
                }
                let (pairs, fin) = read_entries(&v, i + 4, j + 2);
                if fin <= j && v[fin] == '|' && v[fin + 1] == ']' {
                    let ghost ps = spec_parse_block(comment@, i as int, j as int)->0;
                    let mut map = AlgMap::new();
                    let mut k: usize = 0;
                    while k < pairs.len()
                        invariant
                            0 <= k <= pairs.len(),
                            pairs@ == ps,
                            forall|a: AlgorithmE|
                                map.spec_get(a) == spec_entries_get(ps.take(k as int), a),
                        decreases pairs.len() - k,
                    {
                        let (a, b) = pairs[k];
                        map.insert(a, b);
                        proof {
                            assert(ps.take(k + 1).drop_last() =~= ps.take(k as int));
                            assert(ps.take(k + 1).last() == ps[k as int]);
                        }
                        k += 1;
                    }
                    proof {
                        assert(ps.take(ps.len() as int) =~= ps);
                        assert(map.spec_get(AlgorithmE::Actual) == spec_entries_get(
                            ps,
                            AlgorithmE::Actual,
                        ));
                        assert(map.spec_get(AlgorithmE::Naive) == spec_entries_get(
                            ps,
                            AlgorithmE::Naive,
                        ));
                        assert(map.spec_get(AlgorithmE::Bellson) == spec_entries_get(
                            ps,
                            AlgorithmE::Bellson,
                        ));
                        assert(map.spec_get(AlgorithmE::Unknown) == spec_entries_get(
                            ps,
                            AlgorithmE::Unknown,
                        ));
                        assert(map == spec_algmap_of(ps));
                    }
                    Some(EllingtonData { algs: map })
                } else {
                    None
                }
            },
        }
    }

    /// Replace the data block of a comment with this data, serialised
    /// as `format` does. Without a block, the behaviour decides: append
    /// after the comment, prepend before it, or report that the comment
    /// held no data.
    pub fn update_data(&self, comment: &String, append: UpdateBehaviour, minimal: bool) -> (r:
        UpdateResult<String>)
        ensures
            forall|i: int, j: int|
                spec_block_bounds(comment@, i, j) ==> r is Ok && r->Ok_0@ == comment@.take(i)
                    + spec_format(self.algs, minimal) + comment@.skip(j + 2),
            !spec_has_block(comment@) ==> match append {
                UpdateBehaviour::Append => r is Ok && r->Ok_0@ == comment@ + seq![' ']
                    + spec_format(self.algs, minimal),
                UpdateBehaviour::Prepend => r is Ok && r->Ok_0@ == spec_format(self.algs, minimal)
                    + seq![' '] + comment@,
                UpdateBehaviour::FailIfNone => r == UpdateResult::<String>::Err(
                    UpdateError::NoDataInComment,
                ),
            },
    {
        let serialised = match self.format(minimal) {
            Ok(s) => s,
            Err(e) => {
                return Err(e);
            },
        };
        let v = crate::types::chars_of(comment.as_str());
        match find_block(&v) {
            Some((i, j)) => {
                let n = v.len();
                let mut out = String::from_str(comment.as_str().substring_char(0, i));
                out.append(serialised.as_str());
                out.append(comment.as_str().substring_char(j + 2, n));
                proof {
                    assert(out@ =~= comment@.take(i as int) + spec_format(self.algs, minimal)
                        + comment@.skip(j + 2));
                }
                Ok(out)
            },
            None => {
                match append {
                    UpdateBehaviour::Append => {
                        let mut out = String::from_str(comment.as_str());
                        out.append(" ");
                        out.append(serialised.as_str());
                        proof {
                            reveal_strlit(" ");
                            assert(out@ =~= comment@ + seq![' '] + spec_format(
                                self.algs,
                                minimal,
                            ));
                        }
                        Ok(out)
                    },
                    UpdateBehaviour::Prepend => {
                        let mut out = serialised;
                        out.append(" ");
                        out.append(comment.as_str());
                        proof {
                            reveal_strlit(" ");
                            assert(out@ =~= spec_format(self.algs, minimal) + seq![' ']
                                + comment@);
                        }
                        Ok(out)
                    },
                    UpdateBehaviour::FailIfNone => Err(UpdateError::NoDataInComment),
                }
            },
        }
    }

    /// Cut the data block out of a comment, leaving the rest unchanged;
    /// report when the comment held no block.
    pub fn clear_data(comment: &String) -> (r: UpdateResult<String>)
        ensures
            forall|i: int, j: int|
                spec_block_bounds(comment@, i, j) ==> r is Ok && r->Ok_0@ == comment@.take(i)
                    + comment@.skip(j + 2),
            !spec_has_block(comment@) ==> r == UpdateResult::<String>::Err(
                UpdateError::NoDataInComment,
            ),
    {
        let v = crate::types::chars_of(comment.as_str());
        match find_block(&v) {
            Some((i, j)) => {
                let n = v.len();
                let mut out = String::from_str(comment.as_str().substring_char(0, i));
                out.append(comment.as_str().substring_char(j + 2, n));
                proof {
                    assert(out@ =~= comment@.take(i as int) + comment@.skip(j + 2));
                }
                Ok(out)
            },
            None => Err(UpdateError::NoDataInComment),
        }
    }
}

} // verus!
