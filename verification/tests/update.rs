//! Updating comments with freshly formatted data.
use ellington::library::ellingtondata::AlgMap;
use ellington::library::ellingtondata::EllingtonData;
use ellington::library::ellingtondata::UpdateError;
use ellington::types::AlgorithmE;
use ellington::types::BpmE;
use ellington::types::UpdateBehaviour;

fn three_algs() -> EllingtonData {
    EllingtonData {
        algs: AlgMap {
            actual: Some(BpmE::Bpm(240)),
            naive: Some(BpmE::Bpm(239)),
            bellson: Some(BpmE::Bpm(240)),
            unknown: None,
        },
    }
}

#[test]
fn minimal_format_three_entries() {
    let ed = three_algs();
    assert_eq!(ed.format(true).unwrap(), "[ed|a~240,n~239,b~240|]");
    assert_eq!(ed.format(false).unwrap(), "[ed| actual~240, naive~239, bellson~240 |]");
}

#[test]
fn update_prepends_to_plain_userdata() {
    let ed = three_algs();
    let out = ed
        .update_data(
            &"Test Userdata On Command Line".to_string(),
            UpdateBehaviour::Prepend,
            true,
        )
        .unwrap();
    assert_eq!(out, "[ed|a~240,n~239,b~240|] Test Userdata On Command Line");
}

#[test]
fn update_replaces_existing_block() {
    let ed = three_algs();
    let out = ed
        .update_data(
            &"[ed|a~4242,n~4242,b~4242|] Test Userdata Data Pre On Command Line".to_string(),
            UpdateBehaviour::Prepend,
            true,
        )
        .unwrap();
    assert_eq!(out, "[ed|a~240,n~239,b~240|] Test Userdata Data Pre On Command Line");

    let out = ed
        .update_data(
            &"Test Userdata Data Post On Command Line [ed|a~4242,n~4242,b~4242|]".to_string(),
            UpdateBehaviour::Prepend,
            true,
        )
        .unwrap();
    assert_eq!(out, "Test Userdata Data Post On Command Line [ed|a~240,n~239,b~240|]");
}

#[test]
fn update_appends_when_asked() {
    let ed = EllingtonData::with_algorithm(AlgorithmE::Naive, BpmE::Bpm(120));
    let out = ed
        .update_data(&"plain comment".to_string(), UpdateBehaviour::Append, false)
        .unwrap();
    assert_eq!(out, "plain comment [ed| naive~120 |]");
}

#[test]
fn update_fails_without_block_when_told_to() {
    let ed = EllingtonData::with_algorithm(AlgorithmE::Naive, BpmE::Bpm(120));
    let out = ed.update_data(&"plain comment".to_string(), UpdateBehaviour::FailIfNone, false);
    assert_eq!(out, Err(UpdateError::NoDataInComment));
}

#[test]
fn update_respects_line_bounds() {
    // the closing pair on the next line does not close this block
    let ed = EllingtonData::with_algorithm(AlgorithmE::Actual, BpmE::Bpm(99));
    let out = ed
        .update_data(
            &"[ed| naive~1 |] tail\nnoise |] more".to_string(),
            UpdateBehaviour::FailIfNone,
            false,
        )
        .unwrap();
    assert_eq!(out, "[ed| actual~99 |] tail\nnoise |] more");
}

#[test]
fn merge_prefers_newer_entries() {
    let older = EllingtonData::with_algorithm(AlgorithmE::Naive, BpmE::Bpm(100));
    let newer = EllingtonData::with_algorithm(AlgorithmE::Naive, BpmE::Bpm(200));
    let merged = older.merge(&newer);
    assert_eq!(merged.algs.get(AlgorithmE::Naive), Some(BpmE::Bpm(200)));
    let merged = newer.merge(&older);
    assert_eq!(merged.algs.get(AlgorithmE::Naive), Some(BpmE::Bpm(100)));
}

#[test]
fn format_readable_lines() {
    let ed = EllingtonData::with_algorithm(AlgorithmE::Bellson, BpmE::NA);
    assert_eq!(ed.format_readable().unwrap(), "Algorithm: bellson, Tempo: na\n");
}

#[test]
fn parse_overwrites_repeated_algorithm() {
    let parsed = EllingtonData::parse(&"[ed| naive~100, naive~200 |]".to_string()).unwrap();
    assert_eq!(parsed.algs.get(ellington::types::AlgorithmE::Naive), Some(BpmE::Bpm(200)));
}

#[test]
fn parse_empty_block_gives_empty_data() {
    let parsed = EllingtonData::parse(&"[ed||]".to_string()).unwrap();
    assert!(parsed.algs.is_empty());
}

#[test]
fn parse_rejects_malformed_block() {
    assert!(EllingtonData::parse(&"[ed| naive 100 |]".to_string()).is_none());
    assert!(EllingtonData::parse(&"no data here".to_string()).is_none());
    // a blank body is not an entry list, and a trailing comma is unread,
    // so the closing pair is not found where expected
    assert!(EllingtonData::parse(&"[ed| |]".to_string()).is_none());
    assert!(EllingtonData::parse(&"[ed|a~1,|]".to_string()).is_none());
}

#[test]
fn parse_huge_number_falls_back_to_na() {
    let parsed =
        EllingtonData::parse(&"[ed| naive~99999999999999999999 |]".to_string()).unwrap();
    assert_eq!(parsed.algs.get(AlgorithmE::Naive), Some(BpmE::NA));
}
