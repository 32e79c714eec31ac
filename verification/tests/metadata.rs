//! Reading metadata out of tool listings, and folding comment data.
use ellington::library::ellingtondata::EllingtonData;
use ellington::library::trackmetadata::TrackMetadata;
use ellington::library::trackmetadata::id3v2_call::Id3v2Call;
use ellington::library::trackmetadata::id3v2_call::Id3v2Comment;
use ellington::library::trackmetadata::mp4tools_call::Mp4ToolsCall;
use ellington::library::trackmetadata::parse_lines;
use ellington::library::track::GenericTrack;
use ellington::library::track::Track;
use ellington::types::AlgorithmE;
use ellington::types::BpmE;

#[test]
fn id3v2_listing_parses() {
    let lines: Vec<String> = vec![
        "id3v2 tag info for song.mp3:".to_string(),
        "TIT2 (Title/songname/content description): Jumpin' at the Woodside".to_string(),
        "TBPM (BPM (beats per minute)): 239".to_string(),
        "COMM (Comments): (desc)[eng]: swinging, [ed| naive~239 |]".to_string(),
    ];
    let md = parse_lines::<Id3v2Call>(lines).unwrap();
    assert_eq!(md.name, "Jumpin' at the Woodside");
    assert_eq!(md.bpm, Some(239));
    assert_eq!(md.comments, Some(vec!["swinging, [ed| naive~239 |]".to_string()]));
}

#[test]
fn id3v2_listing_without_title_is_nothing() {
    let lines: Vec<String> = vec!["TBPM (BPM (beats per minute)): 120".to_string()];
    assert!(parse_lines::<Id3v2Call>(lines).is_none());
}

#[test]
fn id3v2_comment_splits() {
    let c =
        Id3v2Comment::parse(&"COMM (Comments): (ID3v1 Comment)[XXX]: some comment".to_string())
            .unwrap();
    assert_eq!(c.description, "ID3v1 Comment");
    assert_eq!(c.language, "XXX");
    assert_eq!(c.comment, "some comment");

    let c = Id3v2Comment::parse(&"COMM (Comments): ()[]: bare".to_string()).unwrap();
    assert_eq!(c.description, "");
    assert_eq!(c.language, "");
    assert_eq!(c.comment, "bare");

    assert!(Id3v2Comment::parse(&"TIT2 (Title): nope".to_string()).is_none());
}

#[test]
fn mp4_listing_parses() {
    let lines: Vec<String> = vec![
        "mp4info version 2.0.0".to_string(),
        " Name: King Of The Swingers".to_string(),
        " BPM: 184".to_string(),
        " Comments: command line comment".to_string(),
    ];
    let md = parse_lines::<Mp4ToolsCall>(lines).unwrap();
    assert_eq!(md.name, "King Of The Swingers");
    assert_eq!(md.bpm, Some(184));
    assert_eq!(md.comments, Some(vec!["command line comment".to_string()]));
}

#[test]
fn comment_metadata_folds_later_over_earlier() {
    let md = TrackMetadata {
        name: "song".to_string(),
        bpm: None,
        comments: Some(vec![
            "[ed| naive~100, actual~90 |]".to_string(),
            "noise".to_string(),
            "[ed| naive~200 |]".to_string(),
        ]),
    };
    let ed = md.comment_metadata();
    assert_eq!(ed.algs.get(AlgorithmE::Naive), Some(BpmE::Bpm(200)));
    assert_eq!(ed.algs.get(AlgorithmE::Actual), Some(BpmE::Bpm(90)));
    assert_eq!(ed.algs.get(AlgorithmE::Bellson), None);
    let ed2 = md.as_ellington_metadata();
    assert_eq!(ed, ed2);
}

#[test]
fn title_metadata_reads_the_name() {
    let md = TrackMetadata {
        name: "My Song [ed|a~212|]".to_string(),
        bpm: None,
        comments: None,
    };
    let ed = md.title_metadata();
    assert_eq!(ed.algs.get(AlgorithmE::Actual), Some(BpmE::Bpm(212)));

    let md = TrackMetadata { name: "My Song".to_string(), bpm: None, comments: None };
    assert!(md.title_metadata().algs.is_empty());
}

#[test]
fn track_trait_collects_comment_data() {
    let t = GenericTrack {
        location: "/tmp/x.mp3".to_string(),
        name: "x".to_string(),
        bpm: Some(100),
        comments: Some(vec!["plain".to_string(), "[ed| bellson~180 |]".to_string()]),
    };
    let eds: Vec<EllingtonData> = t.ellington_data().unwrap();
    assert_eq!(eds.len(), 1);
    assert_eq!(eds[0].algs.get(AlgorithmE::Bellson), Some(BpmE::Bpm(180)));
    assert_eq!(t.location(), "/tmp/x.mp3");
    assert_eq!(t.name(), Some("x".to_string()));
    assert_eq!(t.bpm(), Some(100));

    let silent = GenericTrack {
        location: "/tmp/y.mp3".to_string(),
        name: "y".to_string(),
        bpm: None,
        comments: Some(vec!["plain".to_string()]),
    };
    assert!(silent.ellington_data().is_none());
}
