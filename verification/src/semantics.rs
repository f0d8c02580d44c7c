//! The meaning of a generated expression, and the laws that hold of it.
//!
//! The generated text is never run by this crate, so its meaning is stated
//! over an abstract environment: a map from names to unary functions on
//! mathematical integers. Evaluating the generated expression under such an
//! environment is proved equal to folding the name list left to right over
//! the input — the composition order the grammar promises.

use vstd::prelude::*;

use crate::emitter::is_chain;
use crate::emitter::represents;
use crate::emitter::Expr;
use crate::emitter::Generated;
use crate::grammar::names_of;
use crate::grammar::well_formed;
use crate::grammar::Composed;
use crate::grammar::SyntaxError;
use crate::grammar::Token;

verus! {

/// The value of a call expression under an environment `env` of unary
/// functions, with the closure parameter bound to `x`.
pub open spec fn eval_expr(e: Expr, env: Map<Seq<char>, spec_fn(int) -> int>, x: int) -> int
    decreases e,
{
    match e {
        Expr::Input => x,
        Expr::Call { name, argument } => env[name@](eval_expr(*argument, env, x)),
    }
}

/// The left-to-right fold of a name list over `x`: each name's function
/// applied to the value accumulated by the names before it.
pub open spec fn apply_names(
    names: Seq<Seq<char>>,
    env: Map<Seq<char>, spec_fn(int) -> int>,
    x: int,
) -> int
    decreases names.len(),
{
    if names.len() == 0 {
        x
    } else {
        env[names.last()](apply_names(names.drop_last(), env, x))
    }
}

/// The value of applying a generated expression to `x`: a bare name is the
/// named function itself, a closure is its body with the parameter bound.
pub open spec fn apply_generated(
    g: Generated,
    env: Map<Seq<char>, spec_fn(int) -> int>,
    x: int,
) -> int {
    match g {
        Generated::Bare { name } => env[name@](x),
        Generated::Closure { body } => eval_expr(body, env, x),
    }
}

/// A nested call expression of a name list evaluates to the left-to-right
/// fold of that list.
pub proof fn lemma_chain_eval(
    e: Expr,
    names: Seq<Seq<char>>,
    env: Map<Seq<char>, spec_fn(int) -> int>,
    x: int,
)
    requires
        is_chain(e, names),
    ensures
        eval_expr(e, env, x) == apply_names(names, env, x),
    decreases e,
{
    match e {
        Expr::Input => {},
        Expr::Call { name, argument } => {
            lemma_chain_eval(*argument, names.drop_last(), env, x);
        },
    }
}

/// Composition order: for every name list `[n0, ..., nk]`, every environment
/// and every input `x`, applying the generated expression to `x` equals
/// `nk(...(n1(n0(x)))...)` — right-to-left application matches left-to-right
/// textual order.
pub proof fn lemma_composition_order(
    g: Generated,
    names: Seq<Seq<char>>,
    env: Map<Seq<char>, spec_fn(int) -> int>,
    x: int,
)
    requires
        represents(g, names),
    ensures
        apply_generated(g, env, x) == apply_names(names, env, x),
{
    match g {
        Generated::Bare { name } => {
            assert(names.drop_last() =~= Seq::<Seq<char>>::empty());
            assert(apply_names(names.drop_last(), env, x) == x);
            assert(names.last() == name@);
        },
        Generated::Closure { body } => {
            lemma_chain_eval(body, names, env, x);
        },
    }
}

/// Parsing has no hidden state: the contract of `Composed::parse` determines
/// its outcome from the tokens alone, so any two results that meet it on the
/// same token sequence accept or reject alike, and accept the same ordered
/// name list.
pub proof fn lemma_parse_deterministic(
    tokens: Seq<Token>,
    r1: Result<Composed, SyntaxError>,
    r2: Result<Composed, SyntaxError>,
)
    requires
        r1 is Ok <==> well_formed(tokens),
        r1 matches Ok(c1) ==> c1.names() == names_of(tokens),
        r2 is Ok <==> well_formed(tokens),
        r2 matches Ok(c2) ==> c2.names() == names_of(tokens),
    ensures
        r1 is Ok <==> r2 is Ok,
        r1 matches Ok(c1) ==> r2 matches Ok(c2) && c1.names() == c2.names(),
{
}

} // verus!
