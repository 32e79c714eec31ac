//! The small value types shared across the library: tempo-estimation
//! algorithm names, BPM values, and the comment-update behaviour switch.
use vstd::prelude::*;

verus! {

use vstd::std_specs::iter::IteratorSpec;

/// A tempo-estimation algorithm, as named inside `[ed|...|]` comment data.
#[derive(Clone, Copy, Debug, PartialEq, Eq, Structural)]
pub enum AlgorithmE {
    Actual,
    Naive,
    Bellson,
    Unknown,
}

/// The algorithm denoted by the first character of a name, ignoring ASCII case.
pub open spec fn spec_algorithm_of_char(c: char) -> AlgorithmE {
    if c == 'a' || c == 'A' {
        AlgorithmE::Actual
    } else if c == 'n' || c == 'N' {
        AlgorithmE::Naive
    } else if c == 'b' || c == 'B' {
        AlgorithmE::Bellson
    } else {
        AlgorithmE::Unknown
    }
}

/// The canonical printed name of an algorithm, as a sequence of characters.
pub open spec fn spec_algorithm_name(a: AlgorithmE) -> Seq<char> {
    match a {
        AlgorithmE::Actual => seq!['a', 'c', 't', 'u', 'a', 'l'],
        AlgorithmE::Naive => seq!['n', 'a', 'i', 'v', 'e'],
        AlgorithmE::Bellson => seq!['b', 'e', 'l', 'l', 's', 'o', 'n'],
        AlgorithmE::Unknown => seq!['u', 'n', 'k', 'n', 'o', 'w', 'n'],
    }
}

impl AlgorithmE {
    /// Recognise an algorithm by the first character of its name,
    /// ignoring ASCII case; anything unrecognised is `Unknown`.
    pub fn parse(st: &str) -> (r: AlgorithmE)
        requires
            st@.len() > 0,
        ensures
            r == spec_algorithm_of_char(st@[0]),
    {
        let c = st.get_char(0);
        match c {
            'a' | 'A' => AlgorithmE::Actual,
            'n' | 'N' => AlgorithmE::Naive,
            'b' | 'B' => AlgorithmE::Bellson,
            _ => AlgorithmE::Unknown,
        }
    }

    /// The canonical printed name of the algorithm.
    pub fn print(&self) -> (r: &'static str)
        ensures
            r@ == spec_algorithm_name(*self),
    {
        proof {
            reveal_strlit("actual");
            reveal_strlit("naive");
            reveal_strlit("bellson");
            reveal_strlit("unknown");
        }
        match self {
            AlgorithmE::Actual => "actual",
            AlgorithmE::Naive => "naive",
            AlgorithmE::Bellson => "bellson",
            AlgorithmE::Unknown => "unknown",
        }
    }
}

/// A tempo value: a concrete BPM number, or `NA` when none is known.
#[derive(Clone, Copy, Debug, PartialEq, Eq, Structural)]
pub enum BpmE {
    Bpm(i64),
    NA,
}

/// What `BpmE::parse` recognises: the literal `na`, else a decimal `i64`,
/// with anything unreadable mapped to `NA`.
pub open spec fn spec_parse_bpm(s: Seq<char>) -> BpmE {
    if s == seq!['n', 'a'] {
        BpmE::NA
    } else {
        match crate::decimal::spec_parse_i64(s) {
            Some(v) => BpmE::Bpm(v),
            None => BpmE::NA,
        }
    }
}

/// How a tempo value is written inside comment data: the number in
/// decimal, or the literal `na`.
pub open spec fn spec_bpm_text(b: BpmE) -> Seq<char> {
    match b {
        BpmE::Bpm(v) => crate::decimal::spec_idec(v as int),
        BpmE::NA => seq!['n', 'a'],
    }
}

impl BpmE {
    /// Read a tempo value: the literal `na`, else a decimal number;
    /// unreadable text falls back to `NA`.
    pub fn parse(st: &str) -> (r: BpmE)
        ensures
            r == spec_parse_bpm(st@),
    {
        proof {
            reveal_strlit("na");
            assert("na"@ =~= seq!['n', 'a']);
        }
        if str_eq_str(st, "na") {
            BpmE::NA
        } else {
            match crate::decimal::parse_i64_str(st) {
                Some(v) => BpmE::Bpm(v),
                None => BpmE::NA,
            }
        }
    }

    /// The text of this tempo value as comment data writes it.
    pub fn to_text(&self) -> (r: String)
        ensures
            r@ == spec_bpm_text(*self),
    {
        match self {
            BpmE::Bpm(v) => crate::decimal::i64_to_string(*v),
            BpmE::NA => {
                proof {
                    reveal_strlit("na");
                    assert("na"@ =~= seq!['n', 'a']);
                }
                String::from_str("na")
            },
        }
    }

    /// Wrap an optional BPM number, mapping `None` to `NA`.
    pub fn from_option(i: Option<i64>) -> (r: BpmE)
        ensures
            r == match i {
                Some(bpm) => BpmE::Bpm(bpm),
                None => BpmE::NA,
            },
    {
        match i {
            Some(bpm) => BpmE::Bpm(bpm),
            None => BpmE::NA,
        }
    }
}

/// What `EllingtonData::update_data` does when a comment holds no data block.
#[derive(Clone, Copy, Debug, PartialEq, Eq, Structural)]
pub enum UpdateBehaviour {
    FailIfNone,
    Append,
    Prepend,
}

impl UpdateBehaviour {
    /// Recognise a behaviour name; anything unrecognised means "fail if none".
    pub fn parse(st: &str) -> (r: UpdateBehaviour)
        ensures
            r == (if st@ == "append"@ {
                UpdateBehaviour::Append
            } else if st@ == "prepend"@ {
                UpdateBehaviour::Prepend
            } else {
                UpdateBehaviour::FailIfNone
            }),
    {
        if str_eq_str(st, "append") {
            UpdateBehaviour::Append
        } else if str_eq_str(st, "prepend") {
            UpdateBehaviour::Prepend
        } else {
            UpdateBehaviour::FailIfNone
        }
    }
}

/// Character-for-character equality of two string slices.
pub fn str_eq_str(a: &str, b: &str) -> (r: bool)
    ensures
        r == (a@ == b@),
{
    let av = chars_of(a);
    let bv = chars_of(b);
    if av.len() != bv.len() {
        assert(a@.len() != b@.len());
        return false;
    }
    let mut i: usize = 0;
    while i < av.len()
        invariant
            0 <= i <= av.len(),
            av.len() == bv.len(),
            av@ == a@,
            bv@ == b@,
            forall|k: int| 0 <= k < i ==> av@[k] == bv@[k],
        decreases av.len() - i,
    {
        if av[i] != bv[i] {
            return false;
        }
        i += 1;
    }
    proof {
        assert(a@ =~= b@);
    }
    true
}

/// The characters of a string slice, collected into a vector.
pub fn chars_of(s: &str) -> (r: Vec<char>)
    ensures
        r@ == s@,
{
    let mut it = s.chars();
    let mut r: Vec<char> = Vec::new();
    loop
        invariant
            it.obeys_prophetic_iter_laws(),
            it.decrease() is Some,
            r@ + it.remaining() == s@,
        decreases it.decrease()->0,
    {
        match it.next() {
            Some(c) => {
                r.push(c);
            },
            None => {
                proof {
                    assert(it.remaining().len() == 0);
                    assert(r@ =~= s@);
                }
                return r;
            },
        }
    }
}

} // verus!
