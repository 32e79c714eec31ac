//! Reading track metadata out of the mp4info tool's output.
//!
//! A title line announces the text after the first ` Name: `; a tempo
//! line the digits after the first ` BPM: ` a digit follows; a comment
//! line the text after the first ` Comments: `.
use vstd::prelude::*;

verus! {

use crate::decimal::parse_i64_range;
use crate::decimal::spec_parse_i64;
use crate::library::ellingtondata::spec_digits_end;
use crate::library::trackmetadata::MetadataParser;
use crate::library::trackmetadata::find_first;
use crate::library::trackmetadata::find_first_digit;
use crate::library::trackmetadata::spec_find_first;
use crate::library::trackmetadata::spec_find_first_digit;
use crate::types::chars_of;

/// The metadata parser backed by the mp4 tools.
pub struct Mp4ToolsCall;

impl MetadataParser for Mp4ToolsCall {
    open spec fn spec_title(line: Seq<char>) -> Option<Seq<char>> {
        match spec_find_first(line, " Name: "@, 0) {
            Some(i) => Some(line.skip(i + " Name: "@.len())),
            None => None,
        }
    }

    open spec fn spec_bpm(line: Seq<char>) -> Option<i64> {
        match spec_find_first_digit(line, " BPM: "@, 0) {
            Some(i) => {
                let a = i + " BPM: "@.len();
                let e = spec_digits_end(line, a, line.len() as int);
                spec_parse_i64(line.subrange(a, e))
            },
            None => None,
        }
    }

    open spec fn spec_comment(line: Seq<char>) -> Option<Seq<char>> {
        match spec_find_first(line, " Comments: "@, 0) {
            Some(i) => Some(line.skip(i + " Comments: "@.len())),
            None => None,
        }
    }

    fn parse_title(line: &String) -> (r: Option<String>) {
        proof {
            reveal_strlit(" Name: ");
        }
        let v = chars_of(line.as_str());
        let tag = chars_of(" Name: ");
        match find_first(&v, &tag, 0) {
            None => None,
            Some(i) => {
                let n = v.len();
                let t = String::from_str(line.as_str().substring_char(i + 7, n));
                proof {
                    assert(line@.subrange(i + 7, line@.len() as int) =~= line@.skip(i + 7));
                }
                Some(t)
            },
        }
    }

    fn parse_bpm(line: &String) -> (r: Option<i64>) {
        proof {
            reveal_strlit(" BPM: ");
        }
        let v = chars_of(line.as_str());
        let tag = chars_of(" BPM: ");
        match find_first_digit(&v, &tag, 0) {
            None => None,
            Some(i) => {
                let n = v.len();
                let e = crate::library::ellingtondata::digits_end(&v, i + 6, n);
                parse_i64_range(&v, i + 6, e)
            },
        }
    }

    fn parse_comment(line: &String) -> (r: Option<String>) {
        proof {
            reveal_strlit(" Comments: ");
        }
        let v = chars_of(line.as_str());
        let tag = chars_of(" Comments: ");
        match find_first(&v, &tag, 0) {
            None => None,
            Some(i) => {
                let n = v.len();
                let t = String::from_str(line.as_str().substring_char(i + 11, n));
                proof {
                    assert(line@.subrange(i + 11, line@.len() as int) =~= line@.skip(i + 11));
                }
                Some(t)
            },
        }
    }
}

} // verus!
