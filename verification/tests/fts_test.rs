use turbosql::fts::convert_query_for_fts5;

#[test]
fn plain_query_gets_a_prefix_star() {
    assert_eq!(convert_query_for_fts5("hello".to_owned()), "hello*");
}

#[test]
fn empty_query_becomes_a_bare_star() {
    assert_eq!(convert_query_for_fts5(String::new()), "*");
}

#[test]
fn breaking_punctuation_becomes_spaces() {
    assert_eq!(convert_query_for_fts5("foo.bar, isn't-it".to_owned()), "foo bar  isn t it*");
}

#[test]
fn unbalanced_quote_is_closed_and_stops_prefix_search() {
    assert_eq!(convert_query_for_fts5("\"exact phrase".to_owned()), "\"exact phrase\"");
}

#[test]
fn balanced_quotes_not_at_the_end_still_prefix_search() {
    assert_eq!(convert_query_for_fts5("\"ab\" cd".to_owned()), "\"ab\" cd*");
}

#[test]
fn query_ending_in_balanced_quote_is_unchanged() {
    assert_eq!(convert_query_for_fts5("cd \"ab\"".to_owned()), "cd \"ab\"");
}
