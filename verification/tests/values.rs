//! The small value types and decimal text.
use ellington::decimal::i64_to_string;
use ellington::decimal::parse_i64_str;
use ellington::decimal::u64_to_string;
use ellington::types::AlgorithmE;
use ellington::types::BpmE;
use ellington::types::UpdateBehaviour;

#[test]
fn algorithm_parse_by_initial() {
    assert_eq!(AlgorithmE::parse("actual"), AlgorithmE::Actual);
    assert_eq!(AlgorithmE::parse("Naive"), AlgorithmE::Naive);
    assert_eq!(AlgorithmE::parse("b"), AlgorithmE::Bellson);
    assert_eq!(AlgorithmE::parse("whatever"), AlgorithmE::Unknown);
    assert_eq!(AlgorithmE::parse("Anything"), AlgorithmE::Actual);
}

#[test]
fn algorithm_print_names() {
    assert_eq!(AlgorithmE::Actual.print(), "actual");
    assert_eq!(AlgorithmE::Naive.print(), "naive");
    assert_eq!(AlgorithmE::Bellson.print(), "bellson");
    assert_eq!(AlgorithmE::Unknown.print(), "unknown");
}

#[test]
fn bpm_parse_values() {
    assert_eq!(BpmE::parse("na"), BpmE::NA);
    assert_eq!(BpmE::parse("842"), BpmE::Bpm(842));
    assert_eq!(BpmE::parse("-17"), BpmE::Bpm(-17));
    assert_eq!(BpmE::parse("+5"), BpmE::Bpm(5));
    assert_eq!(BpmE::parse("12a"), BpmE::NA);
    assert_eq!(BpmE::parse(""), BpmE::NA);
    assert_eq!(BpmE::parse("99999999999999999999"), BpmE::NA);
}

#[test]
fn bpm_from_option() {
    assert_eq!(BpmE::from_option(Some(120)), BpmE::Bpm(120));
    assert_eq!(BpmE::from_option(None), BpmE::NA);
}

#[test]
fn behaviour_parse() {
    assert!(matches!(UpdateBehaviour::parse("append"), UpdateBehaviour::Append));
    assert!(matches!(UpdateBehaviour::parse("prepend"), UpdateBehaviour::Prepend));
    assert!(matches!(UpdateBehaviour::parse("other"), UpdateBehaviour::FailIfNone));
}

#[test]
fn decimal_rendering() {
    assert_eq!(u64_to_string(0), "0");
    assert_eq!(u64_to_string(842), "842");
    assert_eq!(i64_to_string(-17), "-17");
    assert_eq!(i64_to_string(i64::MIN), "-9223372036854775808");
    assert_eq!(i64_to_string(i64::MAX), "9223372036854775807");
}

#[test]
fn decimal_parsing_bounds() {
    assert_eq!(parse_i64_str("9223372036854775807"), Some(i64::MAX));
    assert_eq!(parse_i64_str("9223372036854775808"), None);
    assert_eq!(parse_i64_str("-9223372036854775808"), Some(i64::MIN));
    assert_eq!(parse_i64_str("-9223372036854775809"), None);
    assert_eq!(parse_i64_str("007"), Some(7));
    assert_eq!(parse_i64_str("+"), None);
    assert_eq!(parse_i64_str("-"), None);
    assert_eq!(parse_i64_str("1 2"), None);
}

#[test]
fn decimal_matches_std_parse() {
    for s in ["0", "-1", "1844674407370955161", "18446744073709551616", "x", "+42", "--3"] {
        assert_eq!(parse_i64_str(s), s.parse::<i64>().ok(), "on {:?}", s);
    }
}
