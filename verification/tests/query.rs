use modeling::query::parse_url_query_string;

#[test]
fn finds_the_value_of_a_key() {
    assert_eq!(parse_url_query_string("?RUST_LOG=debug", "RUST_LOG"), Some("debug"));
}

#[test]
fn finds_a_later_pair() {
    assert_eq!(parse_url_query_string("?a=1&b=2&c=3", "b"), Some("2"));
    assert_eq!(parse_url_query_string("?a=1&b=2&c=3", "c"), Some("3"));
}

#[test]
fn first_match_wins() {
    assert_eq!(parse_url_query_string("?k=first&k=second", "k"), Some("first"));
}

#[test]
fn needs_the_question_mark() {
    assert_eq!(parse_url_query_string("RUST_LOG=debug", "RUST_LOG"), None);
    assert_eq!(parse_url_query_string("", "RUST_LOG"), None);
}

#[test]
fn missing_key_gives_none() {
    assert_eq!(parse_url_query_string("?a=1&b=2", "z"), None);
    assert_eq!(parse_url_query_string("?", "z"), None);
}

#[test]
fn pair_without_equals_stops_the_search() {
    assert_eq!(parse_url_query_string("?flag&a=1", "a"), None);
    assert_eq!(parse_url_query_string("?a=1&flag", "a"), Some("1"));
}

#[test]
fn value_ends_at_a_second_equals() {
    assert_eq!(parse_url_query_string("?a=b=c", "a"), Some("b"));
}

#[test]
fn empty_key_and_empty_value() {
    assert_eq!(parse_url_query_string("?=x", ""), Some("x"));
    assert_eq!(parse_url_query_string("?a=", "a"), Some(""));
}

#[test]
fn works_on_text_outside_ascii() {
    assert_eq!(parse_url_query_string("?clé=värde&x=y", "clé"), Some("värde"));
    assert_eq!(parse_url_query_string("?clé=värde&x=y", "x"), Some("y"));
}
