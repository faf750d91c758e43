use stock_table::parse_row_count;
use stock_table::random_stocks;

#[test]
fn plain_numerals_parse() {
    assert_eq!(parse_row_count("12"), Some(12));
    assert_eq!(parse_row_count("0"), Some(0));
    assert_eq!(parse_row_count("007"), Some(7));
    assert_eq!(parse_row_count("6000"), Some(6000));
}

#[test]
fn a_single_leading_plus_is_allowed() {
    // The same texts Rust's own `usize` parsing accepts.
    assert_eq!(parse_row_count("+12"), Some(12));
    assert_eq!(parse_row_count("+0"), Some(0));
    assert_eq!(parse_row_count("+"), None);
    assert_eq!(parse_row_count("++1"), None);
    assert_eq!(parse_row_count("1+2"), None);
}

#[test]
fn non_numerals_are_rejected() {
    assert_eq!(parse_row_count(""), None);
    assert_eq!(parse_row_count("abc"), None);
    assert_eq!(parse_row_count("1a"), None);
    assert_eq!(parse_row_count(" 12"), None);
    assert_eq!(parse_row_count("-3"), None);
    assert_eq!(parse_row_count("1.5"), None);
}

#[test]
fn the_largest_value_still_parses() {
    let max = format!("{}", usize::MAX);
    assert_eq!(parse_row_count(&max), Some(usize::MAX));
}

#[test]
fn overflowing_numerals_are_rejected() {
    let too_big = format!("{}0", usize::MAX);
    assert_eq!(parse_row_count(&too_big), None);
    assert_eq!(parse_row_count("999999999999999999999999999999"), None);
}

#[test]
fn generated_rows_have_fresh_random_text() {
    let rows = random_stocks(8);
    assert_eq!(rows.len(), 8);
    for (i, s) in rows.iter().enumerate() {
        assert_eq!(s.id, i);
        assert_eq!(s.price_milli, 0);
        // The text fields come from the sample-data generator: between 5
        // and 19 alphanumeric characters.
        assert!(s.symbol.len() >= 5 && s.symbol.len() < 20);
        assert!(s.name.len() >= 5 && s.name.len() < 20);
        assert!(s.symbol.chars().all(|c| c.is_ascii_alphanumeric()));
    }
}
