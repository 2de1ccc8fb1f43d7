use vstd::prelude::*;

verus! {

/// One lexical unit of the dialect, produced by the (out-of-scope) scanner.
///
/// Only the tokens that the argument-list grammar and its sub-constructs
/// (identifiers and default-value expressions) inspect are modelled here;
/// peer constructs extend the same shape with further variants.
#[derive(Clone, Debug, PartialEq, Eq)]
pub enum Token {
    /// The `argument` keyword that introduces one parameter declaration.
    Argument,
    /// The `...` marker of a variadic parameter.
    DotDotDot,
    /// The `?` marker of an optional parameter.
    Question,
    /// The `=` sign that introduces a default-value expression.
    Assign,
    /// The `;` statement terminator.
    Semicolon,
    /// An end-of-line marker, also accepted as a statement terminator.
    Eol,
    /// An identifier, carrying its text.
    Ident(String),
    /// A numeric literal, carrying its text.
    Number(String),
}

/// True of the tokens that terminate one argument declaration.
pub open spec fn is_terminator(t: Token) -> bool {
    t is Semicolon || t is Eol
}

/// Returns a token equal to the given one.
pub fn dup_token(t: &Token) -> (r: Token)
    ensures
        r == *t,
{
    match t {
        Token::Argument => Token::Argument,
        Token::DotDotDot => Token::DotDotDot,
        Token::Question => Token::Question,
        Token::Assign => Token::Assign,
        Token::Semicolon => Token::Semicolon,
        Token::Eol => Token::Eol,
        Token::Ident(s) => Token::Ident(s.clone()),
        Token::Number(s) => Token::Number(s.clone()),
    }
}

} // verus!
