//! The token form of the declarative annotation grammar.
//!
//! A service or route annotation reaches the compiler as a flat sequence
//! of tokens spelling `key = value` and `key(nested_key = "value", ...)`
//! groups, separated by commas.

use vstd::prelude::*;

verus! {

/// One token of an annotation's argument list.
#[derive(Clone, Debug)]
pub enum Token {
    /// A bare identifier, e.g. a key name.
    Ident(String),
    /// A quoted string literal.
    StrLit(String),
    /// An unsigned integer literal.
    IntLit(u64),
    /// `=`
    Eq,
    /// `(`
    LParen,
    /// `)`
    RParen,
    /// `,`
    Comma,
}

/// True of the tokens that stand for a literal value.
pub open spec fn is_lit(t: Token) -> bool {
    t is StrLit || t is IntLit
}

impl Token {
    /// True of the tokens that stand for a literal value.
    pub fn is_literal(&self) -> (r: bool)
        ensures
            r == is_lit(*self),
    {
        match self {
            Token::StrLit(_) => true,
            Token::IntLit(_) => true,
            _ => false,
        }
    }

    /// An equal copy of the token.
    pub fn duplicate(&self) -> (r: Token)
        ensures
            r == *self,
    {
        match self {
            Token::Ident(s) => Token::Ident(s.clone()),
            Token::StrLit(s) => Token::StrLit(s.clone()),
            Token::IntLit(n) => Token::IntLit(*n),
            Token::Eq => Token::Eq,
            Token::LParen => Token::LParen,
            Token::RParen => Token::RParen,
            Token::Comma => Token::Comma,
        }
    }
}

} // verus!
