//! The function and operator catalogs: for each SQL function its name,
//! parameter types and return type, and for each infix operator its token,
//! admissible operand types and result type.

use vstd::prelude::*;
use crate::SqlTy;

verus! {

/// The fixed-arity SQL functions the catalog declares.
#[derive(Clone, Copy, PartialEq, Eq, Structural, Debug)]
pub enum Func {
    /// `length(vector) -> integer`
    Length,
    /// `numnode(query) -> integer`
    Numnode,
    /// `plainto_tsquery(text) -> query`
    PlaintoTsquery,
    /// `querytree(query) -> text`
    Querytree,
    /// `strip(vector) -> vector`
    Strip,
    /// `to_tsquery(text) -> query`
    ToTsquery,
    /// `to_tsvector(text) -> vector`
    ToTsvector,
    /// `ts_headline(text, query) -> text`
    TsHeadline,
    /// `ts_rank(vector, query) -> real`
    TsRank,
    /// `ts_rank_cd(vector, query) -> real`
    TsRankCd,
}

/// The infix SQL operators the catalog declares.
#[derive(Clone, Copy, PartialEq, Eq, Structural, Debug)]
pub enum Op {
    /// `@@`: full-text match; one operand is a vector, the other a query.
    Matches,
    /// `||` on vectors: concatenation.
    Concat,
    /// `&&` on queries.
    And,
    /// `||` on queries.
    Or,
    /// `@>` on queries: left contains right.
    Contains,
    /// Declared with the same `@>` token as `Contains`; almost certainly the
    /// reversed operator `<@` was intended, but the declaration is kept as it
    /// stands and the ambiguity is left to the caller to resolve.
    ContainedBy,
}

/// The SQL name of a catalog function.
pub open spec fn func_name(f: Func) -> Seq<char> {
    match f {
        Func::Length => "length"@,
        Func::Numnode => "numnode"@,
        Func::PlaintoTsquery => "plainto_tsquery"@,
        Func::Querytree => "querytree"@,
        Func::Strip => "strip"@,
        Func::ToTsquery => "to_tsquery"@,
        Func::ToTsvector => "to_tsvector"@,
        Func::TsHeadline => "ts_headline"@,
        Func::TsRank => "ts_rank"@,
        Func::TsRankCd => "ts_rank_cd"@,
    }
}

/// The ordered parameter types of a catalog function.
pub open spec fn func_params(f: Func) -> Seq<SqlTy> {
    match f {
        Func::Length => seq![SqlTy::Vector],
        Func::Numnode => seq![SqlTy::Query],
        Func::PlaintoTsquery => seq![SqlTy::Text],
        Func::Querytree => seq![SqlTy::Query],
        Func::Strip => seq![SqlTy::Vector],
        Func::ToTsquery => seq![SqlTy::Text],
        Func::ToTsvector => seq![SqlTy::Text],
        Func::TsHeadline => seq![SqlTy::Text, SqlTy::Query],
        Func::TsRank => seq![SqlTy::Vector, SqlTy::Query],
        Func::TsRankCd => seq![SqlTy::Vector, SqlTy::Query],
    }
}

/// The return type of a catalog function.
pub open spec fn func_ret(f: Func) -> SqlTy {
    match f {
        Func::Length => SqlTy::Integer,
        Func::Numnode => SqlTy::Integer,
        Func::PlaintoTsquery => SqlTy::Query,
        Func::Querytree => SqlTy::Text,
        Func::Strip => SqlTy::Vector,
        Func::ToTsquery => SqlTy::Query,
        Func::ToTsvector => SqlTy::Vector,
        Func::TsHeadline => SqlTy::Text,
        Func::TsRank => SqlTy::Real,
        Func::TsRankCd => SqlTy::Real,
    }
}

/// The infix token of an operator, with its surrounding spaces.
pub open spec fn op_token(op: Op) -> Seq<char> {
    match op {
        Op::Matches => " @@ "@,
        Op::Concat => " || "@,
        Op::And => " && "@,
        Op::Or => " || "@,
        Op::Contains => " @> "@,
        Op::ContainedBy => " @> "@,
    }
}

/// Whether an operator admits the given operand types. `Matches` accepts a
/// vector on either side as long as the other side is a query; every other
/// operator fixes both operand types.
pub open spec fn op_accepts(op: Op, left: SqlTy, right: SqlTy) -> bool {
    match op {
        Op::Matches => (left == SqlTy::Vector && right == SqlTy::Query) || (left == SqlTy::Query
            && right == SqlTy::Vector),
        Op::Concat => left == SqlTy::Vector && right == SqlTy::Vector,
        Op::And => left == SqlTy::Query && right == SqlTy::Query,
        Op::Or => left == SqlTy::Query && right == SqlTy::Query,
        Op::Contains => left == SqlTy::Query && right == SqlTy::Query,
        Op::ContainedBy => left == SqlTy::Query && right == SqlTy::Query,
    }
}

/// The result type of an operator.
pub open spec fn op_ret(op: Op) -> SqlTy {
    match op {
        Op::Matches => SqlTy::Bool,
        Op::Concat => SqlTy::Vector,
        Op::And => SqlTy::Query,
        Op::Or => SqlTy::Query,
        Op::Contains => SqlTy::Query,
        Op::ContainedBy => SqlTy::Query,
    }
}

/// The SQL name of a catalog function, as a string slice.
pub fn func_sql_name(f: &Func) -> (r: &'static str)
    ensures
        r@ == func_name(*f),
{
    match f {
        Func::Length => "length",
        Func::Numnode => "numnode",
        Func::PlaintoTsquery => "plainto_tsquery",
        Func::Querytree => "querytree",
        Func::Strip => "strip",
        Func::ToTsquery => "to_tsquery",
        Func::ToTsvector => "to_tsvector",
        Func::TsHeadline => "ts_headline",
        Func::TsRank => "ts_rank",
        Func::TsRankCd => "ts_rank_cd",
    }
}

/// The infix token of an operator, as a string slice.
pub fn op_sql_token(op: &Op) -> (r: &'static str)
    ensures
        r@ == op_token(*op),
{
    match op {
        Op::Matches => " @@ ",
        Op::Concat => " || ",
        Op::And => " && ",
        Op::Or => " || ",
        Op::Contains => " @> ",
        Op::ContainedBy => " @> ",
    }
}

} // verus!
