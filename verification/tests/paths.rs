//! File classification, location URLs, and library actions.
use ellington::actions::TrackTitles;
use ellington::input::reader::Reader;
use ellington::itunes::track::url_to_path;
use ellington::library::filemetadata::AudioFileType;
use ellington::library::filemetadata::FileMetadata;

#[test]
fn classifies_extensions() {
    assert!(matches!(FileMetadata::from_path("/m/a.mp3", false).ftype, AudioFileType::Mp3));
    assert!(matches!(FileMetadata::from_path("/m/a.flac", false).ftype, AudioFileType::Flac));
    assert!(matches!(FileMetadata::from_path("/m/a.m4a", false).ftype, AudioFileType::M4a));
    assert!(matches!(FileMetadata::from_path("/m/a.m4p", false).ftype, AudioFileType::M4p));
    assert!(matches!(FileMetadata::from_path("/m/a.mp4", false).ftype, AudioFileType::Mp4));
    assert!(matches!(FileMetadata::from_path("/m/a.wav", false).ftype, AudioFileType::Wav));
    assert!(matches!(FileMetadata::from_path("/m/a.alac", false).ftype, AudioFileType::Alac));
    assert!(matches!(FileMetadata::from_path("/m/a.txt", false).ftype, AudioFileType::NotAudio));
    assert!(matches!(FileMetadata::from_path("/m/mp3", false).ftype, AudioFileType::NotAudio));
    assert!(matches!(FileMetadata::from_path("/m/.mp3", false).ftype, AudioFileType::NotAudio));
    // a directory is never audio, whatever it is called
    assert!(matches!(FileMetadata::from_path("/m/a.mp3", true).ftype, AudioFileType::NotAudio));
}

#[test]
fn audio_file_gate() {
    assert!(FileMetadata::is_audio_file("x.wav", false));
    assert!(!FileMetadata::is_audio_file("x.doc", false));
    assert_eq!(FileMetadata::seq_audio_file(7u32, "x.wav", false), Some(7));
    assert_eq!(FileMetadata::seq_audio_file(7u32, "x.doc", false), None);
}

#[test]
fn location_urls_decode() {
    assert_eq!(
        url_to_path("file:///home/user/My%20Song.mp3"),
        Some("/home/user/My Song.mp3".to_string())
    );
    assert_eq!(
        url_to_path("file://localhost/a/b%2Bc.m4a"),
        Some("/a/b+c.m4a".to_string())
    );
    assert_eq!(url_to_path("not a url at all"), None);
}

#[test]
fn track_titles_keeps_present_names() {
    let titles = TrackTitles::run(vec![
        Some("one".to_string()),
        None,
        Some("two".to_string()),
    ]);
    assert_eq!(titles, vec!["one".to_string(), "two".to_string()]);
}

#[test]
fn reader_starts_empty() {
    let _r: Reader<u8> = Reader::read_in("anything");
}
