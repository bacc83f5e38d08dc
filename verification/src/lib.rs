//! Typed builders for PostgreSQL full-text-search SQL expressions.
//!
//! The crate models a small, closed catalog of SQL types, functions and
//! infix operators (`tsvector`, `tsquery`, `@@`, `&&`, `||`, `@>`, and the
//! `to_tsvector` family), and builds well-typed expression trees that
//! render to SQL text.

use vstd::prelude::*;

pub mod catalog;
pub mod dsl;
pub mod expr;
pub mod registry;

pub use crate::catalog::{Func, Op};
pub use crate::dsl::{BoolExpr, IntegerExpr, RealExpr, TextExpr, TsQuery, TsQueryExtensions,
    TsVector, TsVectorExtensions, length, numnode, plainto_tsquery, querytree, strip, text,
    to_tsquery, to_tsvector, ts_headline, ts_rank, ts_rank_cd};
pub use crate::expr::Node;
pub use crate::registry::PgTypeMetadata;

verus! {

/// The SQL-side types the catalog knows about.
#[derive(Clone, Copy, PartialEq, Eq, Structural, Debug)]
pub enum SqlTy {
    /// SQL boolean, the result of a match predicate.
    Bool,
    /// SQL integer.
    Integer,
    /// SQL real (single-precision) number, the result of ranking.
    Real,
    /// SQL text.
    Text,
    /// PostgreSQL `tsvector`: a tokenized document.
    Vector,
    /// PostgreSQL `tsquery`: a parsed search query.
    Query,
}

} // verus!
