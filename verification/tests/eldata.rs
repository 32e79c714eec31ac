//! The comment-data format: serialising, parsing, and clearing.
use ellington::library::ellingtondata::EllingtonData;
use ellington::library::ellingtondata::UpdateError::FailedToSerialise;
use ellington::library::ellingtondata::UpdateError::NoDataInComment;
use ellington::types::AlgorithmE;
use ellington::types::BpmE;

#[test]
fn serialise() {
    let ed = EllingtonData::with_algorithm(AlgorithmE::parse("unknown"), BpmE::Bpm(842));
    let fm = ed.format(false);
    match fm {
        Ok(s) => assert_eq!(s, "[ed| unknown~842 |]"),
        Err(_) => assert!(false),
    }
}

#[test]
fn simple() {
    let ed = EllingtonData::with_algorithm(AlgorithmE::parse("unknown"), BpmE::Bpm(842));
    let deser = EllingtonData::parse(&"[ed| unknown~842 |]".to_string());
    match deser {
        Some(e) => assert_eq!(ed, e),
        None => assert!(false),
    }
}

#[test]
fn ellingtondata_simple() {
    let ed = EllingtonData::with_algorithm(AlgorithmE::parse("unknown"), BpmE::NA);
    let deser = EllingtonData::parse(&"[ed| unknown~na |]".to_string());
    match deser {
        Some(e) => assert_eq!(ed, e),
        None => assert!(false),
    }
}

#[test]
fn post() {
    let ed = EllingtonData::with_algorithm(AlgorithmE::parse("unknown"), BpmE::Bpm(842));
    let deser =
        EllingtonData::parse(&"Some, tags, [ed. or other, data [ed| unknown~842 |]".to_string());
    match deser {
        Some(e) => assert_eq!(ed, e),
        None => assert!(false),
    }
}

#[test]
fn ellingtondata_post() {
    let ed = EllingtonData::with_algorithm(AlgorithmE::parse("unknown"), BpmE::NA);
    let deser =
        EllingtonData::parse(&"Some, tags, [ed. or other, data [ed| unknown~na |]".to_string());
    match deser {
        Some(e) => assert_eq!(ed, e),
        None => assert!(false),
    }

    let comment: String = "chugging, swinging, [ed, [ed| naive~1842 |]".to_string();
    let expected: String = "chugging, swinging, [ed, ".to_string();
    match EllingtonData::clear_data(&comment) {
        Ok(updated) => {
            assert_ne!(comment, updated);
            assert_eq!(updated, expected);
        }
        Err(NoDataInComment) => panic!("Failed to parse ellington data from comment."),
        Err(FailedToSerialise) => panic!("Failed to serialise ellington data from comment."),
    }
}

#[test]
fn pre() {
    let ed = EllingtonData::with_algorithm(AlgorithmE::parse("unknown"), BpmE::Bpm(842));
    let deser =
        EllingtonData::parse(&"[ed| unknown~842 |] Some, tags, [ed. or other, data".to_string());
    match deser {
        Some(e) => assert_eq!(ed, e),
        None => assert!(false),
    }
}

#[test]
fn ellingtondata_pre() {
    let ed = EllingtonData::with_algorithm(AlgorithmE::parse("unknown"), BpmE::NA);
    let deser =
        EllingtonData::parse(&"[ed| unknown~na |] Some, tags, [ed. or other, data".to_string());
    match deser {
        Some(e) => assert_eq!(ed, e),
        None => assert!(false),
    }

    let comment: String = "[ed| naive~1842 |] chugging, swinging, [ed,".to_string();
    let expected: String = " chugging, swinging, [ed,".to_string();
    match EllingtonData::clear_data(&comment) {
        Ok(updated) => {
            assert_ne!(comment, updated);
            assert_eq!(updated, expected);
        }
        Err(NoDataInComment) => panic!("Failed to parse ellington data from comment."),
        Err(FailedToSerialise) => panic!("Failed to serialise ellington data from comment."),
    }
}

#[test]
fn mid() {
    let ed = EllingtonData::with_algorithm(AlgorithmE::parse("unknown"), BpmE::Bpm(842));
    let deser =
        EllingtonData::parse(&"Some, tags, [ed. [ed| unknown~842 |] or other, data".to_string());
    match deser {
        Some(e) => assert_eq!(ed, e),
        None => assert!(false),
    }
}

#[test]
fn ellingtondata_mid() {
    let ed = EllingtonData::with_algorithm(AlgorithmE::parse("unknown"), BpmE::NA);
    let deser =
        EllingtonData::parse(&"Some, tags, [ed. [ed| unknown~na |] or other, data".to_string());
    match deser {
        Some(e) => assert_eq!(ed, e),
        None => assert!(false),
    }

    let comment: String = "chugging, [ed| naive~1842 |] swinging, [ed,".to_string();
    let expected: String = "chugging,  swinging, [ed,".to_string();
    match EllingtonData::clear_data(&comment) {
        Ok(updated) => {
            assert_ne!(comment, updated);
            assert_eq!(updated, expected);
        }
        Err(NoDataInComment) => panic!("Failed to parse ellington data from comment."),
        Err(FailedToSerialise) => panic!("Failed to serialise ellington data from comment."),
    }
}

#[test]
fn empty() {
    let comment: String = "chuggy, swinging, [ed, more data".to_string();
    match EllingtonData::clear_data(&comment) {
        Ok(updated) => assert_eq!(comment, updated),
        Err(NoDataInComment) => println!("Correct result - no data found!"),
        Err(FailedToSerialise) => panic!("Failed to serialise ellington data from comment."),
    }
}
