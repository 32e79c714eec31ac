//! The ffmpeg invocation that decodes a track to raw float PCM on stdout.
use vstd::prelude::*;

verus! {

use crate::shelltools::generic::EscapedFilename;
use crate::shelltools::generic::ShellArg;
use crate::shelltools::generic::ShellProgram;

/// How many channels ffmpeg mixes the output down to.
#[derive(Clone, Copy, Debug, PartialEq, Eq, Structural)]
pub enum Channels {
    Mono,
    Stereo,
}

impl ShellArg for Channels {
    open spec fn spec_flag() -> Seq<char> {
        "-ac"@
    }

    open spec fn spec_value(&self) -> Seq<char> {
        match self {
            Channels::Mono => "1"@,
            Channels::Stereo => "2"@,
        }
    }

    fn flag() -> (r: &'static str) {
        "-ac"
    }

    fn value(&self) -> (r: &'static str) {
        match self {
            Channels::Mono => "1",
            Channels::Stereo => "2",
        }
    }
}

/// The container format of the output stream.
#[derive(Clone, Copy, Debug, PartialEq, Eq, Structural)]
pub enum Format {
    F32le,
}

impl ShellArg for Format {
    open spec fn spec_flag() -> Seq<char> {
        "-f"@
    }

    open spec fn spec_value(&self) -> Seq<char> {
        match self {
            Format::F32le => "f32le"@,
        }
    }

    fn flag() -> (r: &'static str) {
        "-f"
    }

    fn value(&self) -> (r: &'static str) {
        match self {
            Format::F32le => "f32le",
        }
    }
}

/// The sample codec of the output stream.
#[derive(Clone, Copy, Debug, PartialEq, Eq, Structural)]
pub enum Codec {
    PcmF32le,
}

impl ShellArg for Codec {
    open spec fn spec_flag() -> Seq<char> {
        "-acodec"@
    }

    open spec fn spec_value(&self) -> Seq<char> {
        match self {
            Codec::PcmF32le => "pcm_f32le"@,
        }
    }

    fn flag() -> (r: &'static str) {
        "-acodec"
    }

    fn value(&self) -> (r: &'static str) {
        match self {
            Codec::PcmF32le => "pcm_f32le",
        }
    }
}

/// The sample rate ffmpeg resamples to.
#[derive(Clone, Copy, Debug, PartialEq, Eq, Structural)]
pub enum SampleRate {
    Ffo,
    FortyTwoK,
}

impl ShellArg for SampleRate {
    open spec fn spec_flag() -> Seq<char> {
        "-ar"@
    }

    open spec fn spec_value(&self) -> Seq<char> {
        match self {
            SampleRate::Ffo => "44100"@,
            SampleRate::FortyTwoK => "42000"@,
        }
    }

    fn flag() -> (r: &'static str) {
        "-ar"
    }

    fn value(&self) -> (r: &'static str) {
        match self {
            SampleRate::Ffo => "44100",
            SampleRate::FortyTwoK => "42000",
        }
    }
}

/// One ffmpeg call decoding a file to a raw mono float stream.
#[derive(Clone, Debug, PartialEq, Eq)]
pub struct FfmpegCommand {
    pub filename: EscapedFilename,
    pub samplerate: SampleRate,
    pub channels: Channels,
    pub format: Format,
    pub codec: Codec,
}

impl FfmpegCommand {
    /// The standard decode call: mono float PCM at 44100 Hz.
    pub fn default(filename: &str) -> (r: FfmpegCommand)
        ensures
            r.filename.filename@ == filename@,
            r.samplerate == SampleRate::Ffo,
            r.channels == Channels::Mono,
            r.codec == Codec::PcmF32le,
            r.format == Format::F32le,
    {
        FfmpegCommand {
            filename: EscapedFilename::new(filename),
            samplerate: SampleRate::Ffo,
            channels: Channels::Mono,
            codec: Codec::PcmF32le,
            format: Format::F32le,
        }
    }
}

impl ShellProgram for FfmpegCommand {
    open spec fn spec_command_name() -> Seq<char> {
        "ffmpeg"@
    }

    open spec fn spec_args(&self) -> Seq<Seq<char>> {
        seq![
            "-loglevel"@,
            "quiet"@,
            "-i"@,
            self.filename.filename@,
            Format::spec_flag(),
            self.format.spec_value(),
            Codec::spec_flag(),
            self.codec.spec_value(),
            Channels::spec_flag(),
            self.channels.spec_value(),
            SampleRate::spec_flag(),
            self.samplerate.spec_value(),
            "pipe:1"@,
        ]
    }

    fn command_name() -> (r: &'static str) {
        "ffmpeg"
    }

    fn as_args(&self) -> (r: Vec<String>) {
        let mut r: Vec<String> = Vec::new();
        r.push(String::from_str("-loglevel"));
        r.push(String::from_str("quiet"));
        r.push(String::from_str("-i"));
        r.push(self.filename.filename.clone());
        r.push(String::from_str(Format::flag()));
        r.push(String::from_str(self.format.value()));
        r.push(String::from_str(Codec::flag()));
        r.push(String::from_str(self.codec.value()));
        r.push(String::from_str(Channels::flag()));
        r.push(String::from_str(self.channels.value()));
        r.push(String::from_str(SampleRate::flag()));
        r.push(String::from_str(self.samplerate.value()));
        r.push(String::from_str("pipe:1"));
        proof {
            assert(r.deep_view() =~= self.spec_args());
        }
        r
    }
}

} // verus!
