use diesel_full_text_search::{text, to_tsquery, to_tsvector, TsQueryExtensions,
    TsVectorExtensions};

#[test]
fn vector_matches_query_renders_infix() {
    // The round trip of the vector-side match predicate: two inlined text
    // parameters, in call order.
    let e = to_tsvector(text("the quick fox")).matches(to_tsquery(text("quick")));
    assert_eq!(e.to_sql(), "(to_tsvector('the quick fox') @@ to_tsquery('quick'))");
}

#[test]
fn query_matches_vector_renders_infix() {
    let e = to_tsquery(text("quick")).matches(to_tsvector(text("the quick fox")));
    assert_eq!(e.to_sql(), "(to_tsquery('quick') @@ to_tsvector('the quick fox'))");
}

#[test]
fn concat_renders_infix() {
    let e = to_tsvector(text("a")).concat(to_tsvector(text("b")));
    assert_eq!(e.to_sql(), "(to_tsvector('a') || to_tsvector('b'))");
}

#[test]
fn and_renders_infix() {
    let e = to_tsquery(text("a")).and(to_tsquery(text("b")));
    assert_eq!(e.to_sql(), "(to_tsquery('a') && to_tsquery('b'))");
}

#[test]
fn or_renders_infix() {
    let e = to_tsquery(text("a")).or(to_tsquery(text("b")));
    assert_eq!(e.to_sql(), "(to_tsquery('a') || to_tsquery('b'))");
}

#[test]
fn contains_renders_infix() {
    let e = to_tsquery(text("a")).contains(to_tsquery(text("b")));
    assert_eq!(e.to_sql(), "(to_tsquery('a') @> to_tsquery('b'))");
}

#[test]
fn contains_and_contained_by_render_identically() {
    // Both operators are declared with the `@>` token, so the two renderings
    // coincide; `contained_by` was almost certainly meant to use the
    // reversed token `<@`. This test documents the ambiguity: it compares
    // the two renderings with each other and does not assert that either
    // one is the correct SQL.
    let contains = to_tsquery(text("a")).contains(to_tsquery(text("b")));
    let contained_by = to_tsquery(text("a")).contained_by(to_tsquery(text("b")));
    assert_eq!(contains.to_sql(), contained_by.to_sql());
}

#[test]
fn operators_nest_and_preserve_operand_order() {
    let q = to_tsquery(text("quick")).and(to_tsquery(text("fox")));
    let e = to_tsvector(text("the quick fox")).matches(q);
    assert_eq!(
        e.to_sql(),
        "(to_tsvector('the quick fox') @@ (to_tsquery('quick') && to_tsquery('fox')))"
    );
}
