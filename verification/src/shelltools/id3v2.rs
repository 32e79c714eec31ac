//! The id3v2 invocation that writes a comment into an MP3 file.
use vstd::prelude::*;

verus! {

use crate::shelltools::generic::EscapedFilename;
use crate::shelltools::generic::ShellProgram;

/// One ID3 comment: description, text, and language code.
#[derive(Clone, Debug, PartialEq, Eq)]
pub struct Id3Comment {
    pub description: String,
    pub comment: String,
    pub lang: String,
}

impl Id3Comment {
    /// The colon-joined form the id3v2 tool takes on its command line.
    pub open spec fn spec_arg(&self) -> Seq<char> {
        self.description@ + seq![':'] + self.comment@ + seq![':'] + self.lang@
    }

    fn as_arg(&self) -> (r: String)
        ensures
            r@ == self.spec_arg(),
    {
        let mut s = self.description.clone();
        s.append(":");
        s.append(self.comment.as_str());
        s.append(":");
        s.append(self.lang.as_str());
        proof {
            reveal_strlit(":");
            assert(s@ =~= self.spec_arg());
        }
        s
    }
}

/// One id3v2 call setting a comment on a file.
#[derive(Clone, Debug, PartialEq, Eq)]
pub struct Id3v2Call {
    pub filename: EscapedFilename,
    pub data: Id3Comment,
}

impl ShellProgram for Id3v2Call {
    open spec fn spec_command_name() -> Seq<char> {
        "id3v2"@
    }

    open spec fn spec_args(&self) -> Seq<Seq<char>> {
        seq!["-c"@, self.data.spec_arg(), self.filename.filename@]
    }

    fn command_name() -> (r: &'static str) {
        "id3v2"
    }

    fn as_args(&self) -> (r: Vec<String>) {
        let mut r: Vec<String> = Vec::new();
        r.push(String::from_str("-c"));
        r.push(self.data.as_arg());
        r.push(self.filename.filename.clone());
        proof {
            assert(r.deep_view() =~= self.spec_args());
        }
        r
    }
}

} // verus!
