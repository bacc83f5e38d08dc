use diesel_full_text_search::{text, to_tsquery, to_tsvector};

#[test]
fn quotes_in_text_are_doubled() {
    let e = to_tsvector(text("it's a fox's den"));
    assert_eq!(e.to_sql(), "to_tsvector('it''s a fox''s den')");
}

#[test]
fn empty_text_renders_as_empty_literal() {
    let e = to_tsvector(text(""));
    assert_eq!(e.to_sql(), "to_tsvector('')");
}

#[test]
fn text_of_only_quotes_is_doubled_throughout() {
    let e = to_tsquery(text("'''"));
    assert_eq!(e.to_sql(), "to_tsquery('''''''')");
}

#[test]
fn bare_text_literal_renders_quoted() {
    let e = text("a 'quoted' word");
    assert_eq!(e.to_sql(), "'a ''quoted'' word'");
}
