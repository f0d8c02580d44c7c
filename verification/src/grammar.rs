//! The grammar recognizer: from a stream of tokens to an ordered name list.
//!
//! The accepted grammar is `name (-> name)*`. Parsing is greedy and left to
//! right: after the first name, each arrow must be followed by exactly one
//! further name, and nothing may remain once no arrow follows.

use vstd::prelude::*;

verus! {

/// One token of a composition chain, as the invocation site hands it over:
/// an identifier, the arrow separator, or anything else.
pub enum Token {
    /// An identifier naming a unary function.
    Ident { name: String },
    /// The `->` separator.
    Arrow,
    /// Any token that is neither an identifier nor an arrow.
    Other,
}

/// The single error of the crate: the token stream does not match
/// `name (-> name)*`.
#[derive(Debug)]
pub struct SyntaxError;

/// A token stream matches the grammar exactly when names and arrows strictly
/// alternate, starting and ending with a name.
pub open spec fn well_formed(tokens: Seq<Token>) -> bool {
    &&& tokens.len() % 2 == 1
    &&& forall|i: int|
        0 <= i < tokens.len() ==> if i % 2 == 0 {
            (#[trigger] tokens[i]) is Ident
        } else {
            tokens[i] is Arrow
        }
}

/// The names of a well-formed token stream, in order of appearance: the
/// tokens at even positions.
pub open spec fn names_of(tokens: Seq<Token>) -> Seq<Seq<char>> {
    Seq::new(((tokens.len() + 1) / 2) as nat, |j: int| tokens[2 * j]->name@)
}

/// A parsed composition chain: the first function and the ones applied after
/// it, in order. By construction it always holds at least one name.
pub struct Composed {
    /// The first name of the chain: the innermost, first-applied function.
    pub function: String,
    /// The remaining names, each wrapping the accumulated expression.
    pub others: Vec<String>,
}

impl Composed {
    /// The full name list, first function included, in application order.
    pub open spec fn names(self) -> Seq<Seq<char>> {
        seq![self.function@] + self.others.deep_view()
    }

    /// Recognize `name (-> name)*`. Returns the ordered name list exactly
    /// when the whole stream matches the grammar; every malformed stream
    /// (empty, trailing arrow, missing name, a token out of place) is a
    /// `SyntaxError`.
    pub fn parse(tokens: &Vec<Token>) -> (r: Result<Composed, SyntaxError>)
        ensures
            r is Ok <==> well_formed(tokens@),
            r matches Ok(c) ==> c.names() == names_of(tokens@),
    {
        if tokens.len() == 0 {
            return Err(SyntaxError);
        }
        let function = match &tokens[0] {
            Token::Ident { name } => name.clone(),
            _ => {
                return Err(SyntaxError);
            },
        };
        let mut others: Vec<String> = Vec::new();
        let mut i: usize = 1;
        while i < tokens.len()
            invariant
                1 <= i <= tokens@.len(),
                i % 2 == 1,
                tokens@[0] is Ident,
                function@ == tokens@[0]->name@,
                forall|j: int| 0 < j < i && j % 2 == 1 ==> (#[trigger] tokens@[j]) is Arrow,
                forall|j: int| 0 < j < i && j % 2 == 0 ==> (#[trigger] tokens@[j]) is Ident,
                others@.len() == (i - 1) / 2,
                forall|j: int|
                    0 <= j < others@.len() ==> (#[trigger] others@[j])@ == tokens@[2 * j + 2]->name@,
            decreases tokens@.len() - i,
        {
            match &tokens[i] {
                Token::Arrow => {},
                _ => {
                    return Err(SyntaxError);
                },
            }
            if i + 1 >= tokens.len() {
                // A trailing arrow: the stream has even length.
                return Err(SyntaxError);
            }
            match &tokens[i + 1] {
                Token::Ident { name } => others.push(name.clone()),
                _ => {
                    return Err(SyntaxError);
                },
            }
            i = i + 2;
        }
        let c = Composed { function, others };
        proof {
            assert(tokens@.len() == i);
            assert(c.names() =~= names_of(tokens@));
        }
        Ok(c)
    }
}

} // verus!
