//! Function composition, generated from source text at build time.
//!
//! The input grammar is `name (-> name)*`: identifiers chained by arrow
//! separators. A chain `h -> g -> k` denotes the function that applies `h`
//! first, then `g`, then `k`, and the generated expression is the closure
//! `|x| k(g(h(x)))`. A chain of a single name denotes that name itself.
//!
//! The crate recognizes the grammar over a stream of tokens, builds the
//! composed call expression, and renders it as source text; the semantics of
//! the generated expression is pinned down by proved laws over an abstract
//! environment of unary functions.

use vstd::prelude::*;

pub mod emitter;
pub mod grammar;
pub mod semantics;

use emitter::generated_text;
use grammar::names_of;
use grammar::well_formed;
use grammar::Composed;
use grammar::SyntaxError;
use grammar::Token;

verus! {

/// Rewrite a composition chain into the source text of the expression it
/// denotes: the bare name for a single-name chain, otherwise a closure that
/// applies the names left to right. Succeeds exactly on token streams that
/// match `name (-> name)*`.
pub fn compose(tokens: &Vec<Token>) -> (r: Result<String, SyntaxError>)
    ensures
        r is Ok <==> well_formed(tokens@),
        r matches Ok(text) ==> text@ == generated_text(names_of(tokens@)),
{
    let composed = match Composed::parse(tokens) {
        Ok(c) => c,
        Err(e) => {
            return Err(e);
        },
    };
    let generated = composed.emit();
    proof {
        emitter::lemma_generated_text(generated, composed.names());
    }
    Ok(emitter::render(&generated))
}

} // verus!
