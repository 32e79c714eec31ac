//! The shell command builders.
use ellington::shelltools::bellson::BellsonCommand;
use ellington::shelltools::ffmpeg::FfmpegCommand;
use ellington::shelltools::generic::EscapedFilename;
use ellington::shelltools::generic::ShellProgram;
use ellington::shelltools::id3v2::Id3Comment;
use ellington::shelltools::id3v2::Id3v2Call;
use ellington::shelltools::metadata::Id3v2ReadMetadata;
use ellington::shelltools::metadata::Id3v2WriteComment;
use ellington::shelltools::metadata::Mp4Info;
use ellington::shelltools::metadata::Mp4TagsWriteComment;
use ellington::shelltools::sox::SoxCommand;
use ellington::soxcall::SoxCall;

#[test]
fn escaped_filename_keeps_the_text() {
    let f = EscapedFilename::new("/music/My Song.mp3");
    assert_eq!(f.filename, "/music/My Song.mp3");
}

#[test]
fn ffmpeg_args() {
    let c = FfmpegCommand::default("/music/a.mp3");
    assert_eq!(
        c.as_args(),
        vec![
            "-loglevel", "quiet", "-i", "/music/a.mp3", "-f", "f32le", "-acodec", "pcm_f32le",
            "-ac", "1", "-ar", "44100", "pipe:1",
        ]
        .into_iter()
        .map(|s| s.to_string())
        .collect::<Vec<String>>()
    );
    let sh = c.as_shell_args();
    assert_eq!(sh[0], "ffmpeg");
    assert_eq!(sh.len(), 14);
}

#[test]
fn sox_args() {
    let c = SoxCommand::default("/music/b.flac");
    assert_eq!(
        c.as_args(),
        vec!["-V1", "/music/b.flac", "-r", "44100", "-e", "float", "-c", "1", "-b", "32", "-t",
            "raw", "-"]
        .into_iter()
        .map(|s| s.to_string())
        .collect::<Vec<String>>()
    );
    assert_eq!(c.as_shell_args()[0], "sox");
}

#[test]
fn soxcall_fixed_args() {
    let args = SoxCall::call_args();
    assert_eq!(args[0], "-V1");
    assert_eq!(args.last().unwrap(), "-");
    assert_eq!(args.len(), 13);
}

#[test]
fn bellson_args() {
    let c = BellsonCommand::default("/music/c.mp3");
    assert_eq!(c.as_shell_args(), vec!["bellson-infer".to_string(), "/music/c.mp3".to_string()]);
}

#[test]
fn id3v2_write_call_args() {
    let call = Id3v2Call {
        filename: EscapedFilename::new("/music/d.mp3"),
        data: Id3Comment {
            description: "desc".to_string(),
            comment: "text".to_string(),
            lang: "eng".to_string(),
        },
    };
    assert_eq!(
        call.as_args(),
        vec!["-c".to_string(), "desc:text:eng".to_string(), "/music/d.mp3".to_string()]
    );
}

#[test]
fn metadata_tool_args() {
    let r = Id3v2ReadMetadata::new("/m/e.mp3");
    assert_eq!(r.as_args(), vec!["--list".to_string(), "/m/e.mp3".to_string()]);

    let w = Id3v2WriteComment::new("/m/e.mp3", "d".to_string(), "eng".to_string(),
        "c".to_string());
    assert_eq!(
        w.as_args(),
        vec!["--comment".to_string(), "d:eng:c".to_string(), "/m/e.mp3".to_string()]
    );

    let i = Mp4Info::new("/m/f.m4a");
    assert_eq!(i.as_args(), vec!["/m/f.m4a".to_string()]);

    let t = Mp4TagsWriteComment::new("/m/f.m4a", "c".to_string());
    assert_eq!(t.as_args(), vec!["-c".to_string(), "c".to_string(), "/m/f.m4a".to_string()]);
}
