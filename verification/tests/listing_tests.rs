use secretstore::listing::{append_page_rows, cell_text, listing_row};
use secretstore::present::{highlight_language, use_plain_output};
use secretstore::convert::ContentFormat;

#[test]
fn cells_fall_back_to_blank() {
    assert_eq!(cell_text(&Some(String::from("a-name"))), "a-name");
    assert_eq!(cell_text(&None), "");
}

#[test]
fn a_row_holds_the_three_fields_in_order() {
    let row = listing_row(
        &Some(String::from("name")),
        &None,
        &Some(String::from("arn:aws:secretsmanager:x")),
    );
    assert_eq!(row, vec!["name", "", "arn:aws:secretsmanager:x"]);
}

#[test]
fn pages_accumulate_in_order() {
    let mut rows: Vec<Vec<String>> = Vec::new();
    let first_page = vec![
        (Some(String::from("s1")), Some(String::from("d1")), Some(String::from("a1"))),
        (Some(String::from("s2")), None, Some(String::from("a2"))),
    ];
    append_page_rows(&mut rows, &first_page);
    let second_page = vec![(Some(String::from("s3")), Some(String::from("d3")), None)];
    append_page_rows(&mut rows, &second_page);

    assert_eq!(
        rows,
        vec![
            vec!["s1".to_string(), "d1".to_string(), "a1".to_string()],
            vec!["s2".to_string(), "".to_string(), "a2".to_string()],
            vec!["s3".to_string(), "d3".to_string(), "".to_string()],
        ]
    );
}

#[test]
fn plain_output_when_asked_or_piped() {
    assert!(use_plain_output(true, true));
    assert!(use_plain_output(false, false));
    assert!(!use_plain_output(false, true));
}

#[test]
fn structured_formats_are_highlighted() {
    assert_eq!(highlight_language(&ContentFormat::JSON), Some("json"));
    assert_eq!(highlight_language(&ContentFormat::YAML), Some("yaml"));
    assert_eq!(highlight_language(&ContentFormat::TEXT), None);
}
