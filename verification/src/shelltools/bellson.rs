//! The bellson tempo-inference tool invocation.
use vstd::prelude::*;

verus! {

use crate::shelltools::generic::EscapedFilename;
use crate::shelltools::generic::ShellProgram;

/// One call of the bellson inference tool on an audio file.
#[derive(Clone, Debug, PartialEq, Eq)]
pub struct BellsonCommand {
    pub path: EscapedFilename,
}

impl BellsonCommand {
    /// A call on the given audio file.
    pub fn default(path: &str) -> (r: BellsonCommand)
        ensures
            r.path.filename@ == path@,
    {
        BellsonCommand { path: EscapedFilename::new(path) }
    }
}

impl ShellProgram for BellsonCommand {
    open spec fn spec_command_name() -> Seq<char> {
        "bellson-infer"@
    }

    open spec fn spec_args(&self) -> Seq<Seq<char>> {
        seq![self.path.filename@]
    }

    fn command_name() -> (r: &'static str) {
        "bellson-infer"
    }

    fn as_args(&self) -> (r: Vec<String>) {
        let mut r: Vec<String> = Vec::new();
        r.push(self.path.filename.clone());
        proof {
            assert(r.deep_view() =~= self.spec_args());
        }
        r
    }
}

} // verus!
