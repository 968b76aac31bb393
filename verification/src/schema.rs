//! The structured form of an annotated service interface: the input the
//! descriptor compiler walks.  Each method carries its annotations as
//! named token lists; each parameter carries a pattern, a type expression
//! and its own annotations.

use vstd::prelude::*;
use crate::token::Token;

verus! {

/// One annotation: a name and the token list of its arguments.
pub struct Attr {
    pub name: String,
    pub args: Vec<Token>,
}

/// A type expression: a (last-segment) identifier applied to zero or
/// more type arguments, e.g. `Result<HttpBinGet, Error>`.
pub struct TypeExpr {
    pub ident: String,
    pub args: Vec<TypeExpr>,
}

/// The pattern a parameter is declared with.
pub enum ParamPat {
    /// The receiver (`self`) parameter.
    Receiver,
    /// A plain identifier.
    Ident(String),
    /// Anything else: not bindable to a simple name.
    Other,
}

/// One declared parameter of a method signature.
pub struct ParamDecl {
    pub pat: ParamPat,
    pub ty: Option<TypeExpr>,
    pub attrs: Vec<Attr>,
}

/// One method of the service interface.
pub struct MethodSig {
    pub ident: String,
    pub attrs: Vec<Attr>,
    pub inputs: Vec<ParamDecl>,
    pub output: Option<TypeExpr>,
}

/// The whole annotated service interface.
pub struct TraitDef {
    pub ident: String,
    pub methods: Vec<MethodSig>,
}

} // verus!
