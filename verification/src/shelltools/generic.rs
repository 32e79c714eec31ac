//! The common shape of a shell tool invocation: a command name and its
//! argument strings.
use vstd::prelude::*;

verus! {

/// A filename ready to hand to a command as one argument.
#[derive(Clone, Debug, PartialEq, Eq)]
pub struct EscapedFilename {
    pub filename: String,
}

impl EscapedFilename {
    /// Take a path as the argument text, unchanged.
    pub fn new(unescaped: &str) -> (r: EscapedFilename)
        ensures
            r.filename@ == unescaped@,
    {
        EscapedFilename { filename: String::from_str(unescaped) }
    }
}

/// A two-state command-line switch: one flag, one value.
pub trait ShellArg {
    /// The flag text.
    spec fn spec_flag() -> Seq<char>;

    /// The value text of this variant.
    spec fn spec_value(&self) -> Seq<char>;

    fn flag() -> (r: &'static str)
        ensures
            r@ == Self::spec_flag(),
    ;

    fn value(&self) -> (r: &'static str)
        ensures
            r@ == self.spec_value(),
    ;
}

/// A shell program together with the arguments one call of it takes.
pub trait ShellProgram: Sized {
    /// The name of the executable.
    spec fn spec_command_name() -> Seq<char>;

    /// The argument texts, in order.
    spec fn spec_args(&self) -> Seq<Seq<char>>;

    fn command_name() -> (r: &'static str)
        ensures
            r@ == Self::spec_command_name(),
    ;

    fn as_args(&self) -> (r: Vec<String>)
        ensures
            r.deep_view() == self.spec_args(),
    ;

    /// The command name followed by the arguments, for display or for a
    /// shell invocation.
    fn as_shell_args(&self) -> (r: Vec<String>)
        ensures
            r.deep_view() == seq![Self::spec_command_name()] + self.spec_args(),
    {
        let mut args: Vec<String> = Vec::new();
        args.push(String::from_str(Self::command_name()));
        let mut rest = self.as_args();
        let ghost restv = rest.deep_view();
        let mut i: usize = 0;
        while i < rest.len()
            invariant
                0 <= i <= rest@.len(),
                restv == rest.deep_view(),
                restv.len() == rest@.len(),
                args.deep_view() =~= seq![Self::spec_command_name()] + restv.take(i as int),
            decreases rest@.len() - i,
        {
            let ghost pre = args.deep_view();
            let s = rest[i].clone();
            args.push(s);
            proof {
                assert(rest@[i as int]@ == restv[i as int]);
                assert(args.deep_view() =~= pre.push(restv[i as int]));
                assert(args.deep_view() =~= seq![Self::spec_command_name()] + restv.take(i + 1));
            }
            i += 1;
        }
        proof {
            assert(restv.take(restv.len() as int) =~= restv);
        }
        args
    }
}

} // verus!
