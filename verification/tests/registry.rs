use diesel_full_text_search::SqlTy;

#[test]
fn vector_type_reports_its_oids() {
    let m = SqlTy::Vector.metadata().unwrap();
    assert_eq!(m.oid, 3614);
    assert_eq!(m.array_oid, 3643);
}

#[test]
fn query_type_reports_its_oids() {
    let m = SqlTy::Query.metadata().unwrap();
    assert_eq!(m.oid, 3615);
    assert_eq!(m.array_oid, 3645);
}

#[test]
fn host_side_types_are_not_registered() {
    assert!(SqlTy::Bool.metadata().is_none());
    assert!(SqlTy::Integer.metadata().is_none());
    assert!(SqlTy::Real.metadata().is_none());
    assert!(SqlTy::Text.metadata().is_none());
}
