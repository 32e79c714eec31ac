//! Invocations of the metadata tools: id3v2 for MP3 tags, the mp4 tools
//! for MPEG-4 tags.
use vstd::prelude::*;

verus! {

use crate::shelltools::generic::EscapedFilename;
use crate::shelltools::generic::ShellProgram;

/// One id3v2 call listing the tags of a file.
#[derive(Clone, Debug, PartialEq, Eq)]
pub struct Id3v2ReadMetadata {
    pub filename: EscapedFilename,
}

impl Id3v2ReadMetadata {
    /// A listing call on the given file.
    pub fn new(filename: &str) -> (r: Id3v2ReadMetadata)
        ensures
            r.filename.filename@ == filename@,
    {
        Id3v2ReadMetadata { filename: EscapedFilename::new(filename) }
    }
}

impl ShellProgram for Id3v2ReadMetadata {
    open spec fn spec_command_name() -> Seq<char> {
        "id3v2"@
    }

    open spec fn spec_args(&self) -> Seq<Seq<char>> {
        seq!["--list"@, self.filename.filename@]
    }

    fn command_name() -> (r: &'static str) {
        "id3v2"
    }

    fn as_args(&self) -> (r: Vec<String>) {
        let mut r: Vec<String> = Vec::new();
        r.push(String::from_str("--list"));
        r.push(self.filename.filename.clone());
        proof {
            assert(r.deep_view() =~= self.spec_args());
        }
        r
    }
}

/// One id3v2 call replacing a comment on a file.
#[derive(Clone, Debug, PartialEq, Eq)]
pub struct Id3v2WriteComment {
    pub filename: EscapedFilename,
    pub description: String,
    pub lang: String,
    pub comment: String,
}

impl Id3v2WriteComment {
    /// A write call carrying the comment's description, language and text.
    pub fn new(filename: &str, description: String, lang: String, comment: String) -> (r:
        Id3v2WriteComment)
        ensures
            r.filename.filename@ == filename@,
            r.description == description,
            r.lang == lang,
            r.comment == comment,
    {
        Id3v2WriteComment { filename: EscapedFilename::new(filename), description, lang, comment }
    }

    /// The colon-joined comment argument the tool takes.
    pub open spec fn spec_comment_arg(&self) -> Seq<char> {
        self.description@ + seq![':'] + self.lang@ + seq![':'] + self.comment@
    }

    fn comment_arg(&self) -> (r: String)
        ensures
            r@ == self.spec_comment_arg(),
    {
        let mut s = self.description.clone();
        s.append(":");
        s.append(self.lang.as_str());
        s.append(":");
        s.append(self.comment.as_str());
        proof {
            reveal_strlit(":");
            assert(s@ =~= self.spec_comment_arg());
        }
        s
    }
}

impl ShellProgram for Id3v2WriteComment {
    open spec fn spec_command_name() -> Seq<char> {
        "id3v2"@
    }

    open spec fn spec_args(&self) -> Seq<Seq<char>> {
        seq!["--comment"@, self.spec_comment_arg(), self.filename.filename@]
    }

    fn command_name() -> (r: &'static str) {
        "id3v2"
    }

    fn as_args(&self) -> (r: Vec<String>) {
        let mut r: Vec<String> = Vec::new();
        r.push(String::from_str("--comment"));
        r.push(self.comment_arg());
        r.push(self.filename.filename.clone());
        proof {
            assert(r.deep_view() =~= self.spec_args());
        }
        r
    }
}

/// One mp4info call listing the tags of a file.
#[derive(Clone, Debug, PartialEq, Eq)]
pub struct Mp4Info {
    pub filename: EscapedFilename,
}

impl Mp4Info {
    /// A listing call on the given file.
    pub fn new(filename: &str) -> (r: Mp4Info)
        ensures
            r.filename.filename@ == filename@,
    {
        Mp4Info { filename: EscapedFilename::new(filename) }
    }
}

impl ShellProgram for Mp4Info {
    open spec fn spec_command_name() -> Seq<char> {
        "mp4info"@
    }

    open spec fn spec_args(&self) -> Seq<Seq<char>> {
        seq![self.filename.filename@]
    }

    fn command_name() -> (r: &'static str) {
        "mp4info"
    }

    fn as_args(&self) -> (r: Vec<String>) {
        let mut r: Vec<String> = Vec::new();
        r.push(self.filename.filename.clone());
        proof {
            assert(r.deep_view() =~= self.spec_args());
        }
        r
    }
}

/// One mp4tags call replacing the comment of a file.
#[derive(Clone, Debug, PartialEq, Eq)]
pub struct Mp4TagsWriteComment {
    pub filename: EscapedFilename,
    pub comment: String,
}

impl Mp4TagsWriteComment {
    /// A write call carrying the new comment text.
    pub fn new(filename: &str, comment: String) -> (r: Mp4TagsWriteComment)
        ensures
            r.filename.filename@ == filename@,
            r.comment == comment,
    {
        Mp4TagsWriteComment { filename: EscapedFilename::new(filename), comment }
    }
}

impl ShellProgram for Mp4TagsWriteComment {
    open spec fn spec_command_name() -> Seq<char> {
        "mp4tags"@
    }

    open spec fn spec_args(&self) -> Seq<Seq<char>> {
        seq!["-c"@, self.comment@, self.filename.filename@]
    }

    fn command_name() -> (r: &'static str) {
        "mp4tags"
    }

    fn as_args(&self) -> (r: Vec<String>) {
        let mut r: Vec<String> = Vec::new();
        r.push(String::from_str("-c"));
        r.push(self.comment.clone());
        r.push(self.filename.filename.clone());
        proof {
            assert(r.deep_view() =~= self.spec_args());
        }
        r
    }
}

} // verus!
