//! The emitter: from an ordered name list to the composed call expression.
//!
//! A chain `[n0, n1, ..., nk]` with k >= 1 becomes the closure
//! `|x| nk(...(n1(n0(x)))...)`: the list is folded left to right, each name
//! wrapping the expression accumulated so far, seeded with `n0(x)`. A chain
//! of a single name becomes that name alone, a bare function reference.

use vstd::prelude::*;

use crate::grammar::Composed;

verus! {

/// A call expression over the closure parameter `x`: either the parameter
/// itself or a named unary function applied to a smaller expression.
pub enum Expr {
    /// The closure parameter `x`.
    Input,
    /// `name(argument)`.
    Call { name: String, argument: Box<Expr> },
}

/// The expression a composition chain generates: a bare function reference
/// for a single name, otherwise a closure `|x| body`.
pub enum Generated {
    /// The single name of the chain, referenced directly.
    Bare { name: String },
    /// A closure whose body applies every name of the chain to `x`.
    Closure { body: Expr },
}

/// `e` is the nested call expression of the name list `names`: the last name
/// outermost, each earlier name below it, and `x` innermost.
pub open spec fn is_chain(e: Expr, names: Seq<Seq<char>>) -> bool
    decreases e,
{
    match e {
        Expr::Input => names.len() == 0,
        Expr::Call { name, argument } => {
            &&& names.len() > 0
            &&& name@ == names.last()
            &&& is_chain(*argument, names.drop_last())
        },
    }
}

/// `g` is the generated expression of the name list `names`: the bare name
/// for a one-name list, the closure over the full call chain otherwise.
pub open spec fn represents(g: Generated, names: Seq<Seq<char>>) -> bool {
    match g {
        Generated::Bare { name } => names.len() == 1 && name@ == names[0],
        Generated::Closure { body } => names.len() >= 2 && is_chain(body, names),
    }
}

/// The source text of a nested call expression.
pub open spec fn expr_text(e: Expr) -> Seq<char>
    decreases e,
{
    match e {
        Expr::Input => seq!['x'],
        Expr::Call { name, argument } => name@ + seq!['('] + expr_text(*argument) + seq![')'],
    }
}

/// The source text of a generated expression.
pub open spec fn generated_text_of(g: Generated) -> Seq<char> {
    match g {
        Generated::Bare { name } => name@,
        Generated::Closure { body } => seq!['|', 'x', '|', ' '] + expr_text(body),
    }
}

/// The source text that a name list generates, stated over the names alone:
/// the first name for a one-name list, otherwise `|x| ` followed by the
/// nested calls.
pub open spec fn generated_text(names: Seq<Seq<char>>) -> Seq<char> {
    if names.len() == 1 {
        names[0]
    } else {
        seq!['|', 'x', '|', ' '] + chain_text(names)
    }
}

/// The source text of the nested calls of a name list: `x` for the empty
/// list, otherwise the last name around the text of the rest.
pub open spec fn chain_text(names: Seq<Seq<char>>) -> Seq<char>
    decreases names.len(),
{
    if names.len() == 0 {
        seq!['x']
    } else {
        names.last() + seq!['('] + chain_text(names.drop_last()) + seq![')']
    }
}

/// The text of a chain expression is the chain text of its names.
pub proof fn lemma_chain_expr_text(e: Expr, names: Seq<Seq<char>>)
    requires
        is_chain(e, names),
    ensures
        expr_text(e) == chain_text(names),
    decreases e,
{
    match e {
        Expr::Input => {},
        Expr::Call { name, argument } => {
            lemma_chain_expr_text(*argument, names.drop_last());
        },
    }
}

/// The text of a generated expression is determined by the names it
/// represents.
pub proof fn lemma_generated_text(g: Generated, names: Seq<Seq<char>>)
    requires
        represents(g, names),
    ensures
        generated_text_of(g) == generated_text(names),
{
    match g {
        Generated::Bare { name } => {},
        Generated::Closure { body } => {
            lemma_chain_expr_text(body, names);
        },
    }
}

impl Composed {
    /// Build the generated expression of this chain: the bare first name when
    /// nothing follows it, otherwise the closure over the nested calls, the
    /// first name innermost.
    pub fn emit(&self) -> (g: Generated)
        ensures
            represents(g, self.names()),
    {
        if self.others.len() == 0 {
            proof {
                assert(self.names() =~= seq![self.function@]);
            }
            return Generated::Bare { name: self.function.clone() };
        }
        let mut body = Expr::Call {
            name: self.function.clone(),
            argument: Box::new(Expr::Input),
        };
        proof {
            assert(self.names().take(1) =~= seq![self.function@]);
            assert(self.names().take(1).drop_last() =~= Seq::<Seq<char>>::empty());
            assert(self.names().take(1).last() == self.function@);
            assert(is_chain(Expr::Input, self.names().take(1).drop_last()));
            assert(is_chain(body, self.names().take(1)));
        }
        let mut j: usize = 0;
        while j < self.others.len()
            invariant
                0 <= j <= self.others@.len(),
                is_chain(body, self.names().take(j + 1)),
            decreases self.others@.len() - j,
        {
            proof {
                assert(self.names().take(j + 2).last() == self.others@[j as int]@);
                assert(self.names().take(j + 2).drop_last() =~= self.names().take(j + 1));
            }
            body = Expr::Call {
                name: self.others[j].clone(),
                argument: Box::new(body),
            };
            j = j + 1;
        }
        proof {
            assert(self.names().take(self.others@.len() as int + 1) =~= self.names());
        }
        Generated::Closure { body }
    }
}

/// Render a generated expression as source text.
pub fn render(g: &Generated) -> (r: String)
    ensures
        r@ == generated_text_of(*g),
{
    match g {
        Generated::Bare { name } => name.clone(),
        Generated::Closure { body } => {
            let mut r = String::new();
            r.append("|x| ");
            let inner = render_expr(body);
            r.append(inner.as_str());
            proof {
                reveal_strlit("|x| ");
                assert("|x| "@ =~= seq!['|', 'x', '|', ' ']);
                assert(r@ =~= generated_text_of(*g));
            }
            r
        },
    }
}

/// Render a nested call expression as source text.
fn render_expr(e: &Expr) -> (r: String)
    ensures
        r@ == expr_text(*e),
    decreases *e,
{
    match e {
        Expr::Input => {
            let r = String::from_str("x");
            proof {
                reveal_strlit("x");
                assert(r@ =~= seq!['x']);
            }
            r
        },
        Expr::Call { name, argument } => {
            let mut r = name.clone();
            r.append("(");
            let inner = render_expr(argument);
            r.append(inner.as_str());
            r.append(")");
            proof {
                reveal_strlit("(");
                reveal_strlit(")");
                assert("("@ =~= seq!['(']);
                assert(")"@ =~= seq![')']);
                assert(r@ =~= expr_text(*e));
            }
            r
        },
    }
}

} // verus!
