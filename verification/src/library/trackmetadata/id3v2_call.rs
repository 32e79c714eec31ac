//! Reading track metadata out of the id3v2 tool's `--list` output.
//!
//! A title line carries `TIT2` and announces the text after the last
//! `: ` of the line. A tempo line carries `TBPM` and announces the
//! digits after the last `: ` a digit follows. A comment line has the
//! shape `COMM (Comments): (description)[lang]: comment`, where the
//! description runs to the last `)[` that a language code of at most
//! three non-blank characters and `]: ` can follow.
use vstd::prelude::*;

verus! {

use crate::decimal::parse_i64_range;
use crate::decimal::spec_parse_i64;
use crate::library::ellingtondata::spec_digits_end;
use crate::library::ellingtondata::spec_is_ws;
use crate::library::trackmetadata::MetadataParser;
use crate::library::trackmetadata::find_first;
use crate::library::trackmetadata::find_last;
use crate::library::trackmetadata::find_last_digit;
use crate::library::trackmetadata::occurs_at;
use crate::library::trackmetadata::spec_find_first;
use crate::library::trackmetadata::spec_find_last;
use crate::library::trackmetadata::spec_find_last_digit;
use crate::library::trackmetadata::spec_occurs_at;
use crate::types::chars_of;

/// The metadata parser backed by the id3v2 tool.
pub struct Id3v2Call;

/// The prefix of a comment line.
pub open spec fn spec_comm_prefix() -> Seq<char> {
    "COMM (Comments): ("@
}

/// No blank character in `s[a..a+n]`.
pub open spec fn spec_no_blank(s: Seq<char>, a: int, n: int) -> bool {
    forall|k: int| a <= k < a + n ==> !spec_is_ws(#[trigger] s[k])
}

/// The length of the language code when the comment line splits at the
/// `)[` standing at `p`: the longest run of at most three non-blank
/// characters that `]: ` follows.
pub open spec fn spec_lang_len(s: Seq<char>, p: int) -> Option<int> {
    if spec_no_blank(s, p + 2, 3) && spec_occurs_at(s, p + 5, "]: "@) {
        Some(3)
    } else if spec_no_blank(s, p + 2, 2) && spec_occurs_at(s, p + 4, "]: "@) {
        Some(2)
    } else if spec_no_blank(s, p + 2, 1) && spec_occurs_at(s, p + 3, "]: "@) {
        Some(1)
    } else if spec_occurs_at(s, p + 2, "]: "@) {
        Some(0)
    } else {
        None
    }
}

/// The last position below `p1` at or after `lo` where `)[` stands and
/// a language code with `]: ` follows.
pub open spec fn spec_comm_split(s: Seq<char>, lo: int, p1: int) -> Option<int>
    decreases p1 - lo
        when p1 >= lo
{
    if p1 <= lo {
        None
    } else if spec_occurs_at(s, p1 - 1, ")["@) && spec_lang_len(s, p1 - 1) is Some {
        Some(p1 - 1)
    } else {
        spec_comm_split(s, lo, p1 - 1)
    }
}

/// The three parts of a comment line, if it has the comment shape.
pub open spec fn spec_comm_parts(line: Seq<char>) -> Option<(Seq<char>, Seq<char>, Seq<char>)> {
    match spec_find_first(line, spec_comm_prefix(), 0) {
        Some(i) => {
            let lo = i + spec_comm_prefix().len();
            match spec_comm_split(line, lo, line.len() as int) {
                Some(p) => {
                    let ll = spec_lang_len(line, p)->0;
                    Some(
                        (
                            line.subrange(lo, p),
                            line.subrange(p + 2, p + 2 + ll),
                            line.skip(p + 2 + ll + 3),
                        ),
                    )
                },
                None => None,
            }
        },
        None => None,
    }
}

/// Whether a character counts as blank.
fn is_blank(c: char) -> (r: bool)
    ensures
        r == spec_is_ws(c),
{
    c == ' ' || c == '\t' || c == '\r' || c == '\n'
}

/// The language-code length at a split position, as `spec_lang_len`.
fn lang_len(v: &Vec<char>, p: usize) -> (r: Option<usize>)
    requires
        p + 2 <= v@.len(),
    ensures
        spec_lang_len(v@, p as int) == match r {
            Some(l) => Some(l as int),
            None => None::<int>,
        },
        r is Some ==> p + 2 + r->0 + 3 <= v@.len(),
{
    proof {
        reveal_strlit("]: ");
    }
    let close = chars_of("]: ");
    let n = v.len();
    if n - (p + 2) >= 6 && !is_blank(v[p + 2]) && !is_blank(v[p + 3]) && !is_blank(v[p + 4])
        && occurs_at(v, p + 5, &close) {
        proof {
            assert(spec_no_blank(v@, p + 2, 3));
        }
        return Some(3);
    }
    proof {
        if spec_no_blank(v@, p + 2, 3) && spec_occurs_at(v@, p + 5, "]: "@) {
            assert(!spec_is_ws(v@[p + 2]) && !spec_is_ws(v@[p + 3]) && !spec_is_ws(v@[p + 4]));
            assert(false);
        }
    }
    if n - (p + 2) >= 5 && !is_blank(v[p + 2]) && !is_blank(v[p + 3]) && occurs_at(
        v,
        p + 4,
        &close,
    ) {
        proof {
            assert(spec_no_blank(v@, p + 2, 2));
        }
        return Some(2);
    }
    proof {
        if spec_no_blank(v@, p + 2, 2) && spec_occurs_at(v@, p + 4, "]: "@) {
            assert(!spec_is_ws(v@[p + 2]) && !spec_is_ws(v@[p + 3]));
            assert(false);
        }
    }
    if n - (p + 2) >= 4 && !is_blank(v[p + 2]) && occurs_at(v, p + 3, &close) {
        proof {
            assert(spec_no_blank(v@, p + 2, 1));
        }
        return Some(1);
    }
    proof {
        if spec_no_blank(v@, p + 2, 1) && spec_occurs_at(v@, p + 3, "]: "@) {
            assert(!spec_is_ws(v@[p + 2]));
            assert(false);
        }
    }
    if occurs_at(v, p + 2, &close) {
        return Some(0);
    }
    None
}

/// Find the comment split, as `spec_comm_split`.
fn comm_split(v: &Vec<char>, lo: usize, p1: usize) -> (r: Option<usize>)
    requires
        lo <= p1 <= v@.len(),
    ensures
        spec_comm_split(v@, lo as int, p1 as int) == match r {
            Some(p) => Some(p as int),
            None => None::<int>,
        },
        r is Some ==> lo <= r->0 && r->0 + 2 <= v@.len() && spec_lang_len(v@, r->0 as int)
            is Some,
    decreases p1,
{
    if p1 <= lo {
        return None;
    }
    let p = p1 - 1;
    proof {
        reveal_strlit(")[");
    }
    let open_b = chars_of(")[");
    if occurs_at(v, p, &open_b) {
        if v.len() - p >= 2 {
            if let Some(_l) = lang_len(v, p) {
                return Some(p);
            }
            return comm_split(v, lo, p);
        }
        proof {
            assert(!spec_occurs_at(v@, p as int, ")["@));
        }
        return comm_split(v, lo, p);
    }
    comm_split(v, lo, p)
}

/// One comment of the id3v2 listing: description, language, text.
#[derive(Clone, Debug, PartialEq, Eq)]
pub struct Id3v2Comment {
    pub description: String,
    pub language: String,
    pub comment: String,
}

impl Id3v2Comment {
    /// Split a comment line into its three parts.
    pub fn parse(line: &String) -> (r: Option<Id3v2Comment>)
        ensures
            match r {
                Some(c) => spec_comm_parts(line@) == Some(
                    (c.description@, c.language@, c.comment@),
                ),
                None => spec_comm_parts(line@) is None,
            },
    {
        proof {
            reveal_strlit("COMM (Comments): (");
        }
        let v = chars_of(line.as_str());
        let prefix = chars_of("COMM (Comments): (");
        match find_first(&v, &prefix, 0) {
            None => None,
            Some(i) => {
                let n = v.len();
                let lo = i + prefix.len();
                match comm_split(&v, lo, n) {
                    None => None,
                    Some(p) => {
                        let ll = match lang_len(&v, p) {
                            Some(l) => l,
                            None => {
                                proof {
                                    assert(false);
                                }
                                0
                            },
                        };
                        let n = v.len();
                        let description = String::from_str(
                            line.as_str().substring_char(lo, p),
                        );
                        let language = String::from_str(
                            line.as_str().substring_char(p + 2, p + 2 + ll),
                        );
                        let comment = String::from_str(
                            line.as_str().substring_char(p + 2 + ll + 3, n),
                        );
                        proof {
                            assert(line@.subrange(p + 2 + ll + 3, line@.len() as int) =~= line@
                                .skip(p + 2 + ll + 3));
                        }
                        Some(Id3v2Comment { description, language, comment })
                    },
                }
            },
        }
    }
}

impl MetadataParser for Id3v2Call {
    open spec fn spec_title(line: Seq<char>) -> Option<Seq<char>> {
        match spec_find_first(line, "TIT2"@, 0) {
            Some(i) => match spec_find_last(line, ": "@, line.len() as int) {
                Some(k) => if k >= i + 4 {
                    Some(line.skip(k + 2))
                } else {
                    None
                },
                None => None,
            },
            None => None,
        }
    }

    open spec fn spec_bpm(line: Seq<char>) -> Option<i64> {
        match spec_find_first(line, "TBPM"@, 0) {
            Some(i) => match spec_find_last_digit(line, ": "@, line.len() as int) {
                Some(k) => if k >= i + 4 {
                    let e = spec_digits_end(line, k + 2, line.len() as int);
                    spec_parse_i64(line.subrange(k + 2, e))
                } else {
                    None
                },
                None => None,
            },
            None => None,
        }
    }

    open spec fn spec_comment(line: Seq<char>) -> Option<Seq<char>> {
        match spec_comm_parts(line) {
            Some((d, l, c)) => Some(c),
            None => None,
        }
    }

    fn parse_title(line: &String) -> (r: Option<String>) {
        proof {
            reveal_strlit("TIT2");
            reveal_strlit(": ");
        }
        let v = chars_of(line.as_str());
        let tag = chars_of("TIT2");
        let sep = chars_of(": ");
        match find_first(&v, &tag, 0) {
            None => None,
            Some(i) => match find_last(&v, &sep, v.len()) {
                Some(k) => if k >= i + 4 {
                    let n = v.len();
                    let t = String::from_str(line.as_str().substring_char(k + 2, n));
                    proof {
                        assert(line@.subrange(k + 2, line@.len() as int) =~= line@.skip(k + 2));
                    }
                    Some(t)
                } else {
                    None
                },
                None => None,
            },
        }
    }

    fn parse_bpm(line: &String) -> (r: Option<i64>) {
        proof {
            reveal_strlit("TBPM");
            reveal_strlit(": ");
        }
        let v = chars_of(line.as_str());
        let tag = chars_of("TBPM");
        let sep = chars_of(": ");
        match find_first(&v, &tag, 0) {
            None => None,
            Some(i) => match find_last_digit(&v, &sep, v.len()) {
                Some(k) => if k >= i + 4 {
                    let e = crate::library::ellingtondata::digits_end(&v, k + 2, v.len());
                    parse_i64_range(&v, k + 2, e)
                } else {
                    None
                },
                None => None,
            },
        }
    }

    fn parse_comment(line: &String) -> (r: Option<String>) {
        match Id3v2Comment::parse(line) {
            Some(c) => Some(c.comment),
            None => None,
        }
    }
}

} // verus!
