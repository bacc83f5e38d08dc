//! Expression trees and their rendering to SQL text.
//!
//! A `Node` is an in-memory SQL expression fragment: an inlined text
//! literal, a call of a catalog function, or an application of a catalog
//! operator. `Node::render` says, at the specification level, exactly what
//! SQL text a node stands for; `Node::write_sql` produces that text.

use vstd::prelude::*;
use vstd::string::*;
use crate::SqlTy;
use crate::catalog::{Func, Op, func_name, func_params, func_ret, op_token, op_accepts, op_ret,
    func_sql_name, op_sql_token};

verus! {

/// How one character of a text literal is rendered inside single quotes:
/// a quote is doubled, every other character stands for itself.
pub open spec fn esc_char(c: char) -> Seq<char> {
    if c == '\'' {
        seq!['\'', '\'']
    } else {
        seq![c]
    }
}

/// The body of a single-quoted SQL string literal holding the text `s`:
/// each character escaped by `esc_char`, in order.
pub open spec fn escaped(s: Seq<char>) -> Seq<char>
    decreases s.len(),
{
    if s.len() == 0 {
        Seq::empty()
    } else {
        escaped(s.drop_last()) + esc_char(s.last())
    }
}

proof fn lemma_escaped_step(s: Seq<char>, i: int)
    requires
        0 <= i < s.len(),
    ensures
        escaped(s.take(i + 1)) == escaped(s.take(i)) + esc_char(s[i]),
{
    let t = s.take(i + 1);
    assert(t.drop_last() =~= s.take(i));
}

/// Appends to `out` the escaped body of the SQL string literal for `s`.
fn append_escaped(out: &mut String, s: &str)
    ensures
        final (out)@ == old(out)@ + escaped(s@),
{
    let n: usize = s.unicode_len();
    let mut i: usize = 0;
    while i < n
        invariant
            n == s@.len(),
            i <= n,
            out@ == old(out)@ + escaped(s@.take(i as int)),
        decreases n - i,
    {
        let c = s.get_char(i);
        proof {
            lemma_escaped_step(s@, i as int);
        }
        if c == '\'' {
            out.append("''");
            proof {
                reveal_strlit("''");
                assert("''"@ =~= esc_char(c));
            }
        } else {
            let piece = s.substring_char(i, i + 1);
            out.append(piece);
            proof {
                assert(piece@ =~= esc_char(c));
            }
        }
        proof {
            assert(out@ =~= old(out)@ + escaped(s@.take(i as int + 1)));
        }
        i = i + 1;
    }
    proof {
        assert(s@.take(n as int) =~= s@);
    }
}

/// An SQL expression fragment.
pub enum Node {
    /// An inlined text literal; the `String` is the unescaped text.
    Text(String),
    /// A call of a one-parameter catalog function.
    Call1(Func, Box<Node>),
    /// A call of a two-parameter catalog function.
    Call2(Func, Box<Node>, Box<Node>),
    /// An application of a catalog operator.
    Infix(Op, Box<Node>, Box<Node>),
}

/// The rendering of a one-argument function call.
pub open spec fn render_call1(f: Func, arg: Seq<char>) -> Seq<char> {
    func_name(f) + "("@ + arg + ")"@
}

/// The rendering of a two-argument function call.
pub open spec fn render_call2(f: Func, arg1: Seq<char>, arg2: Seq<char>) -> Seq<char> {
    func_name(f) + "("@ + arg1 + ", "@ + arg2 + ")"@
}

/// The rendering of an operator application.
pub open spec fn render_infix(op: Op, left: Seq<char>, right: Seq<char>) -> Seq<char> {
    "("@ + left + op_token(op) + right + ")"@
}

/// The rendering of an inlined text literal.
pub open spec fn render_text(s: Seq<char>) -> Seq<char> {
    "'"@ + escaped(s) + "'"@
}

impl Node {
    /// The SQL-side type of the expression: the catalog's return type for
    /// calls and operators, text for literals.
    pub open spec fn ty(self) -> SqlTy {
        match self {
            Node::Text(_) => SqlTy::Text,
            Node::Call1(f, _) => func_ret(f),
            Node::Call2(f, _, _) => func_ret(f),
            Node::Infix(op, _, _) => op_ret(op),
        }
    }

    /// Well-typedness: every call has the arity the catalog declares, every
    /// argument and operand has the declared type, recursively.
    pub open spec fn wf(self) -> bool
        decreases self,
    {
        match self {
            Node::Text(_) => true,
            Node::Call1(f, a) => func_params(f).len() == 1 && a.ty() == func_params(f)[0]
                && a.wf(),
            Node::Call2(f, a, b) => func_params(f).len() == 2 && a.ty() == func_params(f)[0]
                && b.ty() == func_params(f)[1] && a.wf() && b.wf(),
            Node::Infix(op, a, b) => op_accepts(op, a.ty(), b.ty()) && a.wf() && b.wf(),
        }
    }

    /// The SQL text the expression renders to: `name(arg)` and
    /// `name(arg1, arg2)` for calls, `(left TOKEN right)` for operators,
    /// `'escaped'` for text literals.
    pub open spec fn render(self) -> Seq<char>
        decreases self,
    {
        match self {
            Node::Text(s) => render_text(s@),
            Node::Call1(f, a) => render_call1(f, a.render()),
            Node::Call2(f, a, b) => render_call2(f, a.render(), b.render()),
            Node::Infix(op, a, b) => render_infix(op, a.render(), b.render()),
        }
    }

    /// Appends the expression's SQL text to `out`.
    pub fn write_sql(&self, out: &mut String)
        ensures
            final (out)@ == old(out)@ + self.render(),
        decreases self,
    {
        match self {
            Node::Text(s) => {
                out.append("'");
                append_escaped(out, s.as_str());
                out.append("'");
                proof {
                    assert(out@ =~= old(out)@ + self.render());
                }
            },
            Node::Call1(f, a) => {
                out.append(func_sql_name(f));
                out.append("(");
                a.write_sql(out);
                out.append(")");
                proof {
                    assert(out@ =~= old(out)@ + self.render());
                }
            },
            Node::Call2(f, a, b) => {
                out.append(func_sql_name(f));
                out.append("(");
                a.write_sql(out);
                out.append(", ");
                b.write_sql(out);
                out.append(")");
                proof {
                    assert(out@ =~= old(out)@ + self.render());
                }
            },
            Node::Infix(op, a, b) => {
                out.append("(");
                a.write_sql(out);
                out.append(op_sql_token(op));
                b.write_sql(out);
                out.append(")");
                proof {
                    assert(out@ =~= old(out)@ + self.render());
                }
            },
        }
    }

    /// The expression's SQL text.
    pub fn to_sql(&self) -> (r: String)
        ensures
            r@ == self.render(),
    {
        let mut out = String::new();
        self.write_sql(&mut out);
        proof {
            assert(out@ =~= self.render());
        }
        out
    }
}

} // verus!
