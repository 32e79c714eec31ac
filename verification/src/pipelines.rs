//! Tempo-estimation pipelines: one external decode step feeding one
//! estimation algorithm. Running a pipeline spawns processes, so the
//! implementations live with the application; the interface is fixed here.
use vstd::prelude::*;

verus! {

/// A named way to turn an audio file into one BPM number.
pub trait Pipeline {
    /// The pipeline's name on the command line.
    fn name() -> (r: &'static str);

    /// Estimate the tempo of the audio file at `audio_file`.
    fn run(audio_file: &str) -> (r: Option<i64>);
}

/// The pipeline that decodes with ffmpeg and estimates with the naive
/// autodifference scan.
pub struct FfmpegNaivePipeline {}

} // verus!
