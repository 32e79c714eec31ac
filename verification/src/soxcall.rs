//! An older, fixed-argument form of the sox invocation.
use vstd::prelude::*;

verus! {

/// A two-state sox switch: one flag, one value.
trait SoxArg {
    spec fn spec_flag() -> Seq<char>;

    spec fn spec_value(&self) -> Seq<char>;

    fn flag() -> (r: &'static str)
        ensures
            r@ == Self::spec_flag(),
    ;

    fn value(&self) -> (r: &'static str)
        ensures
            r@ == self.spec_value(),
    ;
}

/// How many channels the output carries.
#[derive(Clone, Copy, Debug, PartialEq, Eq, Structural)]
pub enum Channels {
    Mono,
    Stereo,
}

impl SoxArg for Channels {
    closed spec fn spec_flag() -> Seq<char> {
        "-c"@
    }

    closed spec fn spec_value(&self) -> Seq<char> {
        match self {
            Channels::Mono => "1"@,
            Channels::Stereo => "2"@,
        }
    }

    fn flag() -> (r: &'static str) {
        "-c"
    }

    fn value(&self) -> (r: &'static str) {
        match self {
            Channels::Mono => "1",
            Channels::Stereo => "2",
        }
    }
}

/// The sample encoding of the output.
#[derive(Clone, Copy, Debug, PartialEq, Eq, Structural)]
pub enum Encoding {
    Float,
    SignedInteger,
    UnsignedInteger,
}

impl SoxArg for Encoding {
    closed spec fn spec_flag() -> Seq<char> {
        "-e"@
    }

    closed spec fn spec_value(&self) -> Seq<char> {
        match self {
            Encoding::Float => "float"@,
            Encoding::SignedInteger => "si"@,
            Encoding::UnsignedInteger => "un"@,
        }
    }

    fn flag() -> (r: &'static str) {
        "-e"
    }

    fn value(&self) -> (r: &'static str) {
        match self {
            Encoding::Float => "float",
            Encoding::SignedInteger => "si",
            Encoding::UnsignedInteger => "un",
        }
    }
}

/// Bits per output sample.
#[derive(Clone, Copy, Debug, PartialEq, Eq, Structural)]
pub enum Bits {
    Eight,
    Sixteen,
    ThirtyTwo,
}

impl SoxArg for Bits {
    closed spec fn spec_flag() -> Seq<char> {
        "-b"@
    }

    closed spec fn spec_value(&self) -> Seq<char> {
        match self {
            Bits::Eight => "8"@,
            Bits::Sixteen => "16"@,
            Bits::ThirtyTwo => "32"@,
        }
    }

    fn flag() -> (r: &'static str) {
        "-b"
    }

    fn value(&self) -> (r: &'static str) {
        match self {
            Bits::Eight => "8",
            Bits::Sixteen => "16",
            Bits::ThirtyTwo => "32",
        }
    }
}

/// The sample rate the output is resampled to.
#[derive(Clone, Copy, Debug, PartialEq, Eq, Structural)]
pub enum SampleRate {
    Ffo,
    FortyTwoK,
}

impl SoxArg for SampleRate {
    closed spec fn spec_flag() -> Seq<char> {
        "-r"@
    }

    closed spec fn spec_value(&self) -> Seq<char> {
        match self {
            SampleRate::Ffo => "44100"@,
            SampleRate::FortyTwoK => "42000"@,
        }
    }

    fn flag() -> (r: &'static str) {
        "-r"
    }

    fn value(&self) -> (r: &'static str) {
        match self {
            SampleRate::Ffo => "44100",
            SampleRate::FortyTwoK => "42000",
        }
    }
}

/// A sox call with a fixed argument list.
pub struct SoxCall {
    pub samplerate: u32,
    pub channels: Channels,
}

impl SoxCall {
    /// The fixed argument texts of the call, in order.
    pub open spec fn spec_call_args() -> Seq<Seq<char>> {
        seq![
            "-V1"@,
            "\"in.mp3\""@,
            "-r"@,
            "44100"@,
            "-e"@,
            "float"@,
            "-c"@,
            "1"@,
            "-b"@,
            "16"@,
            "-t"@,
            "raw"@,
            "-"@,
        ]
    }

    /// The arguments handed to sox; running the command is the caller's
    /// business.
    pub fn call_args() -> (r: Vec<String>)
        ensures
            r.deep_view() == Self::spec_call_args(),
    {
        let mut r: Vec<String> = Vec::new();
        r.push(String::from_str("-V1"));
        r.push(String::from_str("\"in.mp3\""));
        r.push(String::from_str("-r"));
        r.push(String::from_str("44100"));
        r.push(String::from_str("-e"));
        r.push(String::from_str("float"));
        r.push(String::from_str("-c"));
        r.push(String::from_str("1"));
        r.push(String::from_str("-b"));
        r.push(String::from_str("16"));
        r.push(String::from_str("-t"));
        r.push(String::from_str("raw"));
        r.push(String::from_str("-"));
        proof {
            assert(r.deep_view() =~= Self::spec_call_args());
        }
        r
    }
}

} // verus!
