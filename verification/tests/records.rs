use shunt_monitor::fields::{split_fields, trim_ascii};
use shunt_monitor::parse::{plan_line, ParseError};
use shunt_monitor::render::{debug_record, render_sample};

fn views(fields: &[Vec<u8>]) -> Vec<String> {
    fields
        .iter()
        .map(|f| String::from_utf8(f.clone()).unwrap())
        .collect()
}

#[test]
fn split_keeps_fields_in_order() {
    let fields = split_fields("tag, 500, 600".as_bytes());
    assert_eq!(views(&fields), vec!["tag", " 500", " 600"]);
}

#[test]
fn split_without_comma_is_one_field() {
    let fields = split_fields("tag".as_bytes());
    assert_eq!(views(&fields), vec!["tag"]);
}

#[test]
fn split_of_empty_line_is_one_empty_field() {
    let fields = split_fields("".as_bytes());
    assert_eq!(views(&fields), vec![""]);
}

#[test]
fn split_trailing_comma_yields_empty_field() {
    let fields = split_fields("a,b,".as_bytes());
    assert_eq!(views(&fields), vec!["a", "b", ""]);
}

#[test]
fn trim_strips_both_ends() {
    assert_eq!(trim_ascii(" \t500\r\n".as_bytes()), "500".as_bytes().to_vec());
    assert_eq!(trim_ascii("1000".as_bytes()), "1000".as_bytes().to_vec());
    assert_eq!(trim_ascii("  ".as_bytes()), Vec::<u8>::new());
    assert_eq!(trim_ascii("a b".as_bytes()), "a b".as_bytes().to_vec());
}

#[test]
fn debug_record_has_one_channel() {
    let record = debug_record("1000");
    assert_eq!(record, "debug, 1000");
    let plan = plan_line(record.as_bytes(), false).unwrap();
    assert_eq!(views(&plan.codes), vec!["1000"]);
    assert!(!plan.missing_channels);
}

#[test]
fn single_channel_mode_ignores_extra_fields() {
    let plan = plan_line("tag, 500, 600, 700, 800".as_bytes(), false).unwrap();
    assert_eq!(views(&plan.codes), vec!["500"]);
    assert!(!plan.missing_channels);
}

#[test]
fn four_channel_record_yields_four_codes_in_order() {
    let plan = plan_line("tag, 500, 600, 700, 800".as_bytes(), true).unwrap();
    assert_eq!(views(&plan.codes), vec!["500", "600", "700", "800"]);
    assert!(!plan.missing_channels);
}

#[test]
fn tag_alone_is_too_few_fields() {
    let r = plan_line("tag".as_bytes(), false);
    assert_eq!(r.unwrap_err(), ParseError::TooFewFields);
}

#[test]
fn empty_line_is_too_few_fields() {
    let r = plan_line("".as_bytes(), true);
    assert_eq!(r.unwrap_err(), ParseError::TooFewFields);
}

#[test]
fn short_four_channel_record_is_partial_not_fatal() {
    let plan = plan_line("tag, 500, 600".as_bytes(), true).unwrap();
    assert_eq!(views(&plan.codes), vec!["500"]);
    assert!(plan.missing_channels);
}

#[test]
fn render_joins_with_comma_and_space() {
    let parts = vec![String::from("1000"), String::from("0.5"), String::from("-0.25")];
    assert_eq!(render_sample(&parts), "1000, 0.5, -0.25");
}

#[test]
fn render_of_one_piece_is_the_piece() {
    let parts = vec![String::from("42")];
    assert_eq!(render_sample(&parts), "42");
}

#[test]
fn render_of_no_pieces_is_empty() {
    let parts: Vec<String> = Vec::new();
    assert_eq!(render_sample(&parts), "");
}
