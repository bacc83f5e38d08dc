//! The type registry: the static association from the two full-text-search
//! marker types to PostgreSQL's catalog object identifiers.

use vstd::prelude::*;
use crate::SqlTy;

verus! {

/// A PostgreSQL type's pair of catalog identifiers: the scalar type's OID
/// and the OID of its array type.
#[derive(Clone, Copy, PartialEq, Eq, Structural, Debug)]
pub struct PgTypeMetadata {
    pub oid: u32,
    pub array_oid: u32,
}

/// The registry's mapping. It is total over the two full-text-search types
/// (`Vector` and `Query`) and empty elsewhere: the other catalog types are
/// the host query-builder's to describe.
pub open spec fn spec_metadata(t: SqlTy) -> Option<PgTypeMetadata> {
    match t {
        SqlTy::Vector => Some(PgTypeMetadata { oid: 3614, array_oid: 3643 }),
        SqlTy::Query => Some(PgTypeMetadata { oid: 3615, array_oid: 3645 }),
        _ => None,
    }
}

impl SqlTy {
    /// The catalog identifiers registered for this type: `(3614, 3643)` for
    /// the vector type, `(3615, 3645)` for the query type, nothing for the
    /// rest.
    pub fn metadata(self) -> (r: Option<PgTypeMetadata>)
        ensures
            r == spec_metadata(self),
    {
        match self {
            SqlTy::Vector => Some(PgTypeMetadata { oid: 3614, array_oid: 3643 }),
            SqlTy::Query => Some(PgTypeMetadata { oid: 3615, array_oid: 3645 }),
            _ => None,
        }
    }
}

} // verus!
