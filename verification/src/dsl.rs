//! The typed builder layer: one wrapper type per SQL-side type, the ten
//! catalog functions, and the extension traits that attach the catalog's
//! operators as chainable methods.
//!
//! Each wrapper holds an expression node that is well typed for its SQL
//! type; the pairing is kept as a type invariant, so a mismatched operand
//! (say, a query where a vector is required) is rejected by the host
//! type system at the call site, never at rendering time.

use vstd::prelude::*;
use vstd::string::*;
use crate::SqlTy;
use crate::catalog::{Func, Op};
use crate::expr::{Node, render_call1, render_call2, render_infix, render_text};

verus! {

/// An expression of the PostgreSQL `tsvector` type.
pub struct TsVector {
    node: Node,
}

/// An expression of the PostgreSQL `tsquery` type.
pub struct TsQuery {
    node: Node,
}

/// An expression of SQL type text.
pub struct TextExpr {
    node: Node,
}

/// An expression of SQL type integer.
pub struct IntegerExpr {
    node: Node,
}

/// An expression of SQL type real.
pub struct RealExpr {
    node: Node,
}

/// An expression of SQL type boolean: a predicate.
pub struct BoolExpr {
    node: Node,
}

impl View for TsVector {
    type V = Node;

    closed spec fn view(&self) -> Node {
        self.node
    }
}

impl View for TsQuery {
    type V = Node;

    closed spec fn view(&self) -> Node {
        self.node
    }
}

impl View for TextExpr {
    type V = Node;

    closed spec fn view(&self) -> Node {
        self.node
    }
}

impl View for IntegerExpr {
    type V = Node;

    closed spec fn view(&self) -> Node {
        self.node
    }
}

impl View for RealExpr {
    type V = Node;

    closed spec fn view(&self) -> Node {
        self.node
    }
}

impl View for BoolExpr {
    type V = Node;

    closed spec fn view(&self) -> Node {
        self.node
    }
}

impl TsVector {
    #[verifier::type_invariant]
    spec fn inv(self) -> bool {
        self.node.wf() && self.node.ty() == SqlTy::Vector
    }

    /// The SQL text the expression renders to.
    pub fn to_sql(&self) -> (r: String)
        ensures
            r@ == self@.render(),
    {
        self.node.to_sql()
    }
}

impl TsQuery {
    #[verifier::type_invariant]
    spec fn inv(self) -> bool {
        self.node.wf() && self.node.ty() == SqlTy::Query
    }

    /// The SQL text the expression renders to.
    pub fn to_sql(&self) -> (r: String)
        ensures
            r@ == self@.render(),
    {
        self.node.to_sql()
    }
}

impl TextExpr {
    #[verifier::type_invariant]
    spec fn inv(self) -> bool {
        self.node.wf() && self.node.ty() == SqlTy::Text
    }

    /// The SQL text the expression renders to.
    pub fn to_sql(&self) -> (r: String)
        ensures
            r@ == self@.render(),
    {
        self.node.to_sql()
    }
}

impl IntegerExpr {
    #[verifier::type_invariant]
    spec fn inv(self) -> bool {
        self.node.wf() && self.node.ty() == SqlTy::Integer
    }

    /// The SQL text the expression renders to.
    pub fn to_sql(&self) -> (r: String)
        ensures
            r@ == self@.render(),
    {
        self.node.to_sql()
    }
}

impl RealExpr {
    #[verifier::type_invariant]
    spec fn inv(self) -> bool {
        self.node.wf() && self.node.ty() == SqlTy::Real
    }

    /// The SQL text the expression renders to.
    pub fn to_sql(&self) -> (r: String)
        ensures
            r@ == self@.render(),
    {
        self.node.to_sql()
    }
}

impl BoolExpr {
    #[verifier::type_invariant]
    spec fn inv(self) -> bool {
        self.node.wf() && self.node.ty() == SqlTy::Bool
    }

    /// The SQL text the expression renders to.
    pub fn to_sql(&self) -> (r: String)
        ensures
            r@ == self@.render(),
    {
        self.node.to_sql()
    }
}

/// An inlined text literal, rendered single-quoted with quotes doubled.
pub fn text(s: &str) -> (r: TextExpr)
    ensures
        r@.wf(),
        r@.ty() == SqlTy::Text,
        r@.render() == render_text(s@),
{
    TextExpr { node: Node::Text(String::from_str(s)) }
}

/// `length(vector) -> integer`: the number of lexemes in a vector.
pub fn length(arg: TsVector) -> (r: IntegerExpr)
    ensures
        r@.wf(),
        r@.ty() == SqlTy::Integer,
        r@.render() == render_call1(Func::Length, arg@.render()),
{
    proof {
        use_type_invariant(&arg);
    }
    IntegerExpr { node: Node::Call1(Func::Length, Box::new(arg.node)) }
}

/// `numnode(query) -> integer`: the number of nodes in a query.
pub fn numnode(arg: TsQuery) -> (r: IntegerExpr)
    ensures
        r@.wf(),
        r@.ty() == SqlTy::Integer,
        r@.render() == render_call1(Func::Numnode, arg@.render()),
{
    proof {
        use_type_invariant(&arg);
    }
    IntegerExpr { node: Node::Call1(Func::Numnode, Box::new(arg.node)) }
}

/// `plainto_tsquery(text) -> query`: a query from plain text.
pub fn plainto_tsquery(arg: TextExpr) -> (r: TsQuery)
    ensures
        r@.wf(),
        r@.ty() == SqlTy::Query,
        r@.render() == render_call1(Func::PlaintoTsquery, arg@.render()),
{
    proof {
        use_type_invariant(&arg);
    }
    TsQuery { node: Node::Call1(Func::PlaintoTsquery, Box::new(arg.node)) }
}

/// `querytree(query) -> text`: the indexable part of a query.
pub fn querytree(arg: TsQuery) -> (r: TextExpr)
    ensures
        r@.wf(),
        r@.ty() == SqlTy::Text,
        r@.render() == render_call1(Func::Querytree, arg@.render()),
{
    proof {
        use_type_invariant(&arg);
    }
    TextExpr { node: Node::Call1(Func::Querytree, Box::new(arg.node)) }
}

/// `strip(vector) -> vector`: the vector with positions and weights removed.
pub fn strip(arg: TsVector) -> (r: TsVector)
    ensures
        r@.wf(),
        r@.ty() == SqlTy::Vector,
        r@.render() == render_call1(Func::Strip, arg@.render()),
{
    proof {
        use_type_invariant(&arg);
    }
    TsVector { node: Node::Call1(Func::Strip, Box::new(arg.node)) }
}

/// `to_tsquery(text) -> query`: a query parsed from query syntax.
pub fn to_tsquery(arg: TextExpr) -> (r: TsQuery)
    ensures
        r@.wf(),
        r@.ty() == SqlTy::Query,
        r@.render() == render_call1(Func::ToTsquery, arg@.render()),
{
    proof {
        use_type_invariant(&arg);
    }
    TsQuery { node: Node::Call1(Func::ToTsquery, Box::new(arg.node)) }
}

/// `to_tsvector(text) -> vector`: a tokenized document.
pub fn to_tsvector(arg: TextExpr) -> (r: TsVector)
    ensures
        r@.wf(),
        r@.ty() == SqlTy::Vector,
        r@.render() == render_call1(Func::ToTsvector, arg@.render()),
{
    proof {
        use_type_invariant(&arg);
    }
    TsVector { node: Node::Call1(Func::ToTsvector, Box::new(arg.node)) }
}

/// `ts_headline(text, query) -> text`: the document with matches marked.
pub fn ts_headline(arg1: TextExpr, arg2: TsQuery) -> (r: TextExpr)
    ensures
        r@.wf(),
        r@.ty() == SqlTy::Text,
        r@.render() == render_call2(Func::TsHeadline, arg1@.render(), arg2@.render()),
{
    proof {
        use_type_invariant(&arg1);
        use_type_invariant(&arg2);
    }
    TextExpr { node: Node::Call2(Func::TsHeadline, Box::new(arg1.node), Box::new(arg2.node)) }
}

/// `ts_rank(vector, query) -> real`: the match's rank.
pub fn ts_rank(arg1: TsVector, arg2: TsQuery) -> (r: RealExpr)
    ensures
        r@.wf(),
        r@.ty() == SqlTy::Real,
        r@.render() == render_call2(Func::TsRank, arg1@.render(), arg2@.render()),
{
    proof {
        use_type_invariant(&arg1);
        use_type_invariant(&arg2);
    }
    RealExpr { node: Node::Call2(Func::TsRank, Box::new(arg1.node), Box::new(arg2.node)) }
}

/// `ts_rank_cd(vector, query) -> real`: the match's cover-density rank.
pub fn ts_rank_cd(arg1: TsVector, arg2: TsQuery) -> (r: RealExpr)
    ensures
        r@.wf(),
        r@.ty() == SqlTy::Real,
        r@.render() == render_call2(Func::TsRankCd, arg1@.render(), arg2@.render()),
{
    proof {
        use_type_invariant(&arg1);
        use_type_invariant(&arg2);
    }
    RealExpr { node: Node::Call2(Func::TsRankCd, Box::new(arg1.node), Box::new(arg2.node)) }
}

/// The catalog's operators on vector-typed expressions, as chainable
/// methods.
pub trait TsVectorExtensions: View<V = Node> + Sized {
    /// The match predicate `(self @@ other)`.
    fn matches(self, other: TsQuery) -> (r: BoolExpr)
        ensures
            r@.wf(),
            r@.ty() == SqlTy::Bool,
            r@.render() == render_infix(Op::Matches, self@.render(), other@.render()),
    ;

    /// The concatenation `(self || other)`.
    fn concat(self, other: TsVector) -> (r: TsVector)
        ensures
            r@.wf(),
            r@.ty() == SqlTy::Vector,
            r@.render() == render_infix(Op::Concat, self@.render(), other@.render()),
    ;
}

/// The catalog's operators on query-typed expressions, as chainable
/// methods.
pub trait TsQueryExtensions: View<V = Node> + Sized {
    /// The match predicate `(self @@ other)`.
    fn matches(self, other: TsVector) -> (r: BoolExpr)
        ensures
            r@.wf(),
            r@.ty() == SqlTy::Bool,
            r@.render() == render_infix(Op::Matches, self@.render(), other@.render()),
    ;

    /// The conjunction `(self && other)`.
    fn and(self, other: TsQuery) -> (r: TsQuery)
        ensures
            r@.wf(),
            r@.ty() == SqlTy::Query,
            r@.render() == render_infix(Op::And, self@.render(), other@.render()),
    ;

    /// The disjunction `(self || other)`.
    fn or(self, other: TsQuery) -> (r: TsQuery)
        ensures
            r@.wf(),
            r@.ty() == SqlTy::Query,
            r@.render() == render_infix(Op::Or, self@.render(), other@.render()),
    ;

    /// The containment predicate `(self @> other)`.
    fn contains(self, other: TsQuery) -> (r: TsQuery)
        ensures
            r@.wf(),
            r@.ty() == SqlTy::Query,
            r@.render() == render_infix(Op::Contains, self@.render(), other@.render()),
    ;

    /// Declared with the same `@>` token as `contains`, so the two render
    /// identically; the reversed token `<@` was almost certainly intended.
    /// The declaration is kept as it stands.
    fn contained_by(self, other: TsQuery) -> (r: TsQuery)
        ensures
            r@.wf(),
            r@.ty() == SqlTy::Query,
            r@.render() == render_infix(Op::ContainedBy, self@.render(), other@.render()),
    ;
}

/// For every pair of operand renderings, `contains` and `contained_by`
/// produce the same SQL text: both operators are declared with the `@>`
/// token. The reversed token `<@` was almost certainly intended for
/// `contained_by`; the declaration is kept as it stands, and this lemma
/// records the ambiguity instead of asserting either rendering correct.
pub proof fn lemma_contains_contained_by_render_alike(left: Seq<char>, right: Seq<char>)
    ensures
        render_infix(Op::Contains, left, right) == render_infix(Op::ContainedBy, left, right),
{
}

impl TsVectorExtensions for TsVector {
    fn matches(self, other: TsQuery) -> (r: BoolExpr) {
        proof {
            use_type_invariant(&self);
            use_type_invariant(&other);
        }
        BoolExpr { node: Node::Infix(Op::Matches, Box::new(self.node), Box::new(other.node)) }
    }

    fn concat(self, other: TsVector) -> (r: TsVector) {
        proof {
            use_type_invariant(&self);
            use_type_invariant(&other);
        }
        TsVector { node: Node::Infix(Op::Concat, Box::new(self.node), Box::new(other.node)) }
    }
}

impl TsQueryExtensions for TsQuery {
    fn matches(self, other: TsVector) -> (r: BoolExpr) {
        proof {
            use_type_invariant(&self);
            use_type_invariant(&other);
        }
        BoolExpr { node: Node::Infix(Op::Matches, Box::new(self.node), Box::new(other.node)) }
    }

    fn and(self, other: TsQuery) -> (r: TsQuery) {
        proof {
            use_type_invariant(&self);
            use_type_invariant(&other);
        }
        TsQuery { node: Node::Infix(Op::And, Box::new(self.node), Box::new(other.node)) }
    }

    fn or(self, other: TsQuery) -> (r: TsQuery) {
        proof {
            use_type_invariant(&self);
            use_type_invariant(&other);
        }
        TsQuery { node: Node::Infix(Op::Or, Box::new(self.node), Box::new(other.node)) }
    }

    fn contains(self, other: TsQuery) -> (r: TsQuery) {
        proof {
            use_type_invariant(&self);
            use_type_invariant(&other);
        }
        TsQuery { node: Node::Infix(Op::Contains, Box::new(self.node), Box::new(other.node)) }
    }

    fn contained_by(self, other: TsQuery) -> (r: TsQuery) {
        proof {
            use_type_invariant(&self);
            use_type_invariant(&other);
        }
        TsQuery { node: Node::Infix(Op::ContainedBy, Box::new(self.node), Box::new(other.node)) }
    }
}

} // verus!
