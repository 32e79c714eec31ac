//! The sox invocation that decodes a track to raw samples on stdout.
use vstd::prelude::*;

verus! {

use crate::shelltools::generic::EscapedFilename;
use crate::shelltools::generic::ShellArg;
use crate::shelltools::generic::ShellProgram;

/// How many channels sox mixes the output down to.
#[derive(Clone, Copy, Debug, PartialEq, Eq, Structural)]
pub enum Channels {
    Mono,
    Stereo,
}

impl ShellArg for Channels {
    open spec fn spec_flag() -> Seq<char> {
        "-c"@
    }

    open spec fn spec_value(&self) -> Seq<char> {
        match self {
            Channels::Mono => "1"@,
            Channels::Stereo => "2"@,
        }
    }

    fn flag() -> (r: &'static str) {
        "-c"
    }

    fn value(&self) -> (r: &'static str) {
        match self {
            Channels::Mono => "1",
            Channels::Stereo => "2",
        }
    }
}

/// The sample encoding of the output.
#[derive(Clone, Copy, Debug, PartialEq, Eq, Structural)]
pub enum Encoding {
    Float,
    SignedInteger,
    UnsignedInteger,
}

impl ShellArg for Encoding {
    open spec fn spec_flag() -> Seq<char> {
        "-e"@
    }

    open spec fn spec_value(&self) -> Seq<char> {
        match self {
            Encoding::Float => "float"@,
            Encoding::SignedInteger => "si"@,
            Encoding::UnsignedInteger => "un"@,
        }
    }

    fn flag() -> (r: &'static str) {
        "-e"
    }

    fn value(&self) -> (r: &'static str) {
        match self {
            Encoding::Float => "float",
            Encoding::SignedInteger => "si",
            Encoding::UnsignedInteger => "un",
        }
    }
}

/// Bits per output sample.
#[derive(Clone, Copy, Debug, PartialEq, Eq, Structural)]
pub enum Bits {
    Eight,
    Sixteen,
    ThirtyTwo,
}

impl ShellArg for Bits {
    open spec fn spec_flag() -> Seq<char> {
        "-b"@
    }

    open spec fn spec_value(&self) -> Seq<char> {
        match self {
            Bits::Eight => "8"@,
            Bits::Sixteen => "16"@,
            Bits::ThirtyTwo => "32"@,
        }
    }

    fn flag() -> (r: &'static str) {
        "-b"
    }

    fn value(&self) -> (r: &'static str) {
        match self {
            Bits::Eight => "8",
            Bits::Sixteen => "16",
            Bits::ThirtyTwo => "32",
        }
    }
}

/// The sample rate sox resamples to.
#[derive(Clone, Copy, Debug, PartialEq, Eq, Structural)]
pub enum SampleRate {
    Ffo,
    FortyTwoK,
}

impl ShellArg for SampleRate {
    open spec fn spec_flag() -> Seq<char> {
        "-r"@
    }

    open spec fn spec_value(&self) -> Seq<char> {
        match self {
            SampleRate::Ffo => "44100"@,
            SampleRate::FortyTwoK => "42000"@,
        }
    }

    fn flag() -> (r: &'static str) {
        "-r"
    }

    fn value(&self) -> (r: &'static str) {
        match self {
            SampleRate::Ffo => "44100",
            SampleRate::FortyTwoK => "42000",
        }
    }
}

/// One sox call decoding a file to a raw stream on stdout.
#[derive(Clone, Debug, PartialEq, Eq)]
pub struct SoxCommand {
    pub filename: EscapedFilename,
    pub samplerate: SampleRate,
    pub channels: Channels,
    pub encoding: Encoding,
    pub bits: Bits,
}

impl SoxCommand {
    /// The standard decode call: mono 32-bit float at 44100 Hz.
    pub fn default(filename: &str) -> (r: SoxCommand)
        ensures
            r.filename.filename@ == filename@,
            r.samplerate == SampleRate::Ffo,
            r.channels == Channels::Mono,
            r.encoding == Encoding::Float,
            r.bits == Bits::ThirtyTwo,
    {
        SoxCommand {
            filename: EscapedFilename::new(filename),
            samplerate: SampleRate::Ffo,
            channels: Channels::Mono,
            encoding: Encoding::Float,
            bits: Bits::ThirtyTwo,
        }
    }
}

impl ShellProgram for SoxCommand {
    open spec fn spec_command_name() -> Seq<char> {
        "sox"@
    }

    open spec fn spec_args(&self) -> Seq<Seq<char>> {
        seq![
            "-V1"@,
            self.filename.filename@,
            SampleRate::spec_flag(),
            self.samplerate.spec_value(),
            Encoding::spec_flag(),
            self.encoding.spec_value(),
            Channels::spec_flag(),
            self.channels.spec_value(),
            Bits::spec_flag(),
            self.bits.spec_value(),
            "-t"@,
            "raw"@,
            "-"@,
        ]
    }

    fn command_name() -> (r: &'static str) {
        "sox"
    }

    fn as_args(&self) -> (r: Vec<String>) {
        let mut r: Vec<String> = Vec::new();
        r.push(String::from_str("-V1"));
        r.push(self.filename.filename.clone());
        r.push(String::from_str(SampleRate::flag()));
        r.push(String::from_str(self.samplerate.value()));
        r.push(String::from_str(Encoding::flag()));
        r.push(String::from_str(self.encoding.value()));
        r.push(String::from_str(Channels::flag()));
        r.push(String::from_str(self.channels.value()));
        r.push(String::from_str(Bits::flag()));
        r.push(String::from_str(self.bits.value()));
        r.push(String::from_str("-t"));
        r.push(String::from_str("raw"));
        r.push(String::from_str("-"));
        proof {
            assert(r.deep_view() =~= self.spec_args());
        }
        r
    }
}

} // verus!
