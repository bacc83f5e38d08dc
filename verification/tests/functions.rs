use diesel_full_text_search::{length, numnode, plainto_tsquery, querytree, strip, text,
    to_tsquery, to_tsvector, ts_headline, ts_rank, ts_rank_cd};

#[test]
fn length_renders_as_call() {
    let e = length(to_tsvector(text("a b c")));
    assert_eq!(e.to_sql(), "length(to_tsvector('a b c'))");
}

#[test]
fn numnode_renders_as_call() {
    let e = numnode(to_tsquery(text("fat & rat")));
    assert_eq!(e.to_sql(), "numnode(to_tsquery('fat & rat'))");
}

#[test]
fn plainto_tsquery_renders_as_call() {
    let e = plainto_tsquery(text("the fat rats"));
    assert_eq!(e.to_sql(), "plainto_tsquery('the fat rats')");
}

#[test]
fn querytree_renders_as_call() {
    let e = querytree(to_tsquery(text("foo & ! bar")));
    assert_eq!(e.to_sql(), "querytree(to_tsquery('foo & ! bar'))");
}

#[test]
fn strip_renders_as_call() {
    // strip(to_tsvector('a b c'))
    let e = strip(to_tsvector(text("a b c")));
    assert_eq!(e.to_sql(), "strip(to_tsvector('a b c'))");
}

#[test]
fn to_tsquery_renders_as_call() {
    let e = to_tsquery(text("quick"));
    assert_eq!(e.to_sql(), "to_tsquery('quick')");
}

#[test]
fn to_tsvector_renders_as_call() {
    let e = to_tsvector(text("the quick fox"));
    assert_eq!(e.to_sql(), "to_tsvector('the quick fox')");
}

#[test]
fn ts_headline_renders_arguments_in_call_order() {
    let e = ts_headline(text("the quick fox"), to_tsquery(text("fox")));
    assert_eq!(e.to_sql(), "ts_headline('the quick fox', to_tsquery('fox'))");
}

#[test]
fn ts_rank_renders_arguments_in_call_order() {
    let e = ts_rank(to_tsvector(text("doc")), to_tsquery(text("doc")));
    assert_eq!(e.to_sql(), "ts_rank(to_tsvector('doc'), to_tsquery('doc'))");
}

#[test]
fn ts_rank_cd_renders_arguments_in_call_order() {
    let e = ts_rank_cd(to_tsvector(text("doc")), to_tsquery(text("doc")));
    assert_eq!(e.to_sql(), "ts_rank_cd(to_tsvector('doc'), to_tsquery('doc'))");
}
