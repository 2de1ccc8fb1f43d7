use vstd::prelude::*;
use crate::expression::{spec_parse_expression, Expression};
use crate::failure::{Expectation, ParseFailure};
use crate::fragment::Fragment;
use crate::helpers::{semi_or_eol, spec_parse_terminator};
use crate::identifier::{spec_parse_identifier, Identifier};
use crate::token::{is_terminator, Token};
use crate::tokens::Tokens;

verus! {

/// A parsed argument list: a right-recursive chain of parameter
/// declarations, one variant per grammar alternative.
///
/// A variadic parameter is terminal by construction: the variant carries
/// no rest, so nothing can follow it inside a single list value.
#[derive(Debug, PartialEq, Eq)]
pub enum ArgumentList {
    /// A plain required parameter, followed by the rest of the list.
    Argument(Identifier, Box<ArgumentList>),
    /// A parameter with a default-value expression, followed by the rest.
    DefaultArgument(Identifier, Expression, Box<ArgumentList>),
    /// A parameter marked omittable, followed by the rest of the list.
    OptionalArgument(Identifier, Box<ArgumentList>),
    /// A trailing "collect the rest" parameter; terminal.
    VariadicArgument(Identifier),
    /// The empty list.
    End,
}

/// What parsing an argument list from the token suffix `t` yields: the
/// parsed node and the number of tokens consumed, or the failure.
/// `base` is the absolute position of `t[0]`, used in failures.
///
/// The empty result is reserved for the lookahead that signals "list
/// over": the `argument` keyword is simply absent. Inside a declaration,
/// a failing sub-construct or a malformed terminator propagates as a
/// failure, never as a silent empty list.
pub open spec fn spec_parse_args(t: Seq<Token>, base: int) -> Result<
    (ArgumentList, int),
    ParseFailure,
>
    decreases t.len(),
{
    if t.len() == 0 || !(t[0] is Argument) {
        Ok((ArgumentList::End, 0))
    } else if t.len() >= 2 && t[1] is DotDotDot {
        match spec_parse_identifier(t.skip(2), base + 2) {
            Err(e) => Err(ParseFailure::MalformedSubExpression(Box::new(e))),
            Ok(id) => match spec_parse_terminator(t.skip(3), base + 3) {
                Err(e) => Err(e),
                Ok(_) => Ok((ArgumentList::VariadicArgument(id), 4)),
            },
        }
    } else {
        match spec_parse_identifier(t.skip(1), base + 1) {
            Err(e) => Err(ParseFailure::MalformedSubExpression(Box::new(e))),
            Ok(id) => {
                if t.len() >= 3 && t[2] is Question {
                    match spec_parse_terminator(t.skip(3), base + 3) {
                        Err(e) => Err(e),
                        Ok(_) => match spec_parse_args(t.skip(4), base + 4) {
                            Err(e) => Err(e),
                            Ok(rest) => Ok(
                                (ArgumentList::OptionalArgument(id, Box::new(rest.0)), 4 + rest.1),
                            ),
                        },
                    }
                } else if t.len() >= 3 && t[2] is Assign {
                    match spec_parse_expression(t.skip(3), base + 3) {
                        Err(e) => Err(ParseFailure::MalformedSubExpression(Box::new(e))),
                        Ok(expr) => match spec_parse_terminator(t.skip(4), base + 4) {
                            Err(e) => Err(e),
                            Ok(_) => match spec_parse_args(t.skip(5), base + 5) {
                                Err(e) => Err(e),
                                Ok(rest) => Ok(
                                    (
                                        ArgumentList::DefaultArgument(id, expr, Box::new(rest.0)),
                                        5 + rest.1,
                                    ),
                                ),
                            },
                        },
                    }
                } else {
                    match spec_parse_terminator(t.skip(2), base + 2) {
                        Err(e) => Err(e),
                        Ok(_) => match spec_parse_args(t.skip(3), base + 3) {
                            Err(e) => Err(e),
                            Ok(rest) => Ok(
                                (ArgumentList::Argument(id, Box::new(rest.0)), 3 + rest.1),
                            ),
                        },
                    }
                }
            },
        }
    }
}

/// What parsing an argument list that must extend to the next
/// non-argument token yields: as `spec_parse_args`, except that a further
/// `argument` keyword left unconsumed — which can only happen after a
/// variadic parameter, since the empty list is produced exactly when the
/// keyword is absent — is a boundary validation error, not a silent stop.
pub open spec fn spec_parse_args_complete(t: Seq<Token>, base: int) -> Result<
    (ArgumentList, int),
    ParseFailure,
> {
    match spec_parse_args(t, base) {
        Err(e) => Err(e),
        Ok(pair) => if pair.1 < t.len() && t[pair.1] is Argument {
            Err(
                ParseFailure::UnexpectedToken {
                    expected: Expectation::ListEnd,
                    found: t[pair.1],
                    at: (base + pair.1) as usize,
                },
            )
        } else {
            Ok(pair)
        },
    }
}

/// The canonical token sequence of the list: what the canonical source
/// text tokenizes to. The canonical terminator is the semicolon.
pub open spec fn canon_tokens(n: ArgumentList) -> Seq<Token>
    decreases n,
{
    match n {
        ArgumentList::Argument(id, rest) => seq![
            Token::Argument,
            Token::Ident(id.0),
            Token::Semicolon,
        ] + canon_tokens(*rest),
        ArgumentList::DefaultArgument(id, expr, rest) => seq![
            Token::Argument,
            Token::Ident(id.0),
            Token::Assign,
            expr.token(),
            Token::Semicolon,
        ] + canon_tokens(*rest),
        ArgumentList::OptionalArgument(id, rest) => seq![
            Token::Argument,
            Token::Ident(id.0),
            Token::Question,
            Token::Semicolon,
        ] + canon_tokens(*rest),
        ArgumentList::VariadicArgument(id) => seq![
            Token::Argument,
            Token::DotDotDot,
            Token::Ident(id.0),
            Token::Semicolon,
        ],
        ArgumentList::End => Seq::empty(),
    }
}

/// The canonical source text of the list: each declaration terminated by
/// a semicolon, declarations separated by one space.
pub open spec fn canon_text(n: ArgumentList) -> Seq<char>
    decreases n,
{
    match n {
        ArgumentList::Argument(id, rest) => "argument "@ + id.0@ + ";"@ + (if *rest is End {
            Seq::<char>::empty()
        } else {
            " "@ + canon_text(*rest)
        }),
        ArgumentList::DefaultArgument(id, expr, rest) => "argument "@ + id.0@ + " = "@ + expr.text()
            + ";"@ + (if *rest is End {
            Seq::<char>::empty()
        } else {
            " "@ + canon_text(*rest)
        }),
        ArgumentList::OptionalArgument(id, rest) => "argument "@ + id.0@ + "?;"@ + (if *rest
            is End {
            Seq::<char>::empty()
        } else {
            " "@ + canon_text(*rest)
        }),
        ArgumentList::VariadicArgument(id) => "argument ..."@ + id.0@ + ";"@,
        ArgumentList::End => Seq::empty(),
    }
}

impl ArgumentList {
    /// True of the empty list.
    pub fn is_end(&self) -> (b: bool)
        ensures
            b == (*self is End),
    {
        match self {
            ArgumentList::End => true,
            _ => false,
        }
    }

    /// Parses a complete argument list: as `Fragment::parse`, and then
    /// rejects a parameter declaration left after a variadic parameter
    /// instead of silently accepting the truncated list.
    pub fn parse_complete(tokens: &mut Tokens) -> (r: Result<ArgumentList, ParseFailure>)
        ensures
            final(tokens).toks() == old(tokens).toks(),
            match spec_parse_args_complete(old(tokens).remaining(), old(tokens).position()) {
                Ok(pair) => r == Ok::<ArgumentList, ParseFailure>(pair.0) && final(tokens).position() == old(tokens).position() + pair.1,
                Err(e) => r == Err::<ArgumentList, ParseFailure>(e) && final(tokens).position() == old(tokens).position(),
            },
    {
        let start = tokens.pos();
        let node = match Self::parse(tokens) {
            Ok(node) => node,
            Err(e) => {
                return Err(e);
            },
        };
        match tokens.peek() {
            Some(Token::Argument) => {
                let at = tokens.pos();
                tokens.seek(start);
                Err(
                    ParseFailure::UnexpectedToken {
                        expected: Expectation::ListEnd,
                        found: Token::Argument,
                        at,
                    },
                )
            },
            _ => Ok(node),
        }
    }

    /// Renders the list back to its canonical token sequence.
    pub fn render_tokens(&self) -> (r: Vec<Token>)
        ensures
            r@ == canon_tokens(*self),
        decreases *self,
    {
        match self {
            ArgumentList::End => Vec::new(),
            ArgumentList::VariadicArgument(id) => {
                let mut v: Vec<Token> = Vec::new();
                v.push(Token::Argument);
                v.push(Token::DotDotDot);
                v.push(Token::Ident(id.0.clone()));
                v.push(Token::Semicolon);
                proof {
                    assert(v@ =~= canon_tokens(*self));
                }
                v
            },
            ArgumentList::Argument(id, rest) => {
                let mut v: Vec<Token> = Vec::new();
                v.push(Token::Argument);
                v.push(Token::Ident(id.0.clone()));
                v.push(Token::Semicolon);
                let mut tail = rest.render_tokens();
                v.append(&mut tail);
                proof {
                    assert(v@ =~= canon_tokens(*self));
                }
                v
            },
            ArgumentList::OptionalArgument(id, rest) => {
                let mut v: Vec<Token> = Vec::new();
                v.push(Token::Argument);
                v.push(Token::Ident(id.0.clone()));
                v.push(Token::Question);
                v.push(Token::Semicolon);
                let mut tail = rest.render_tokens();
                v.append(&mut tail);
                proof {
                    assert(v@ =~= canon_tokens(*self));
                }
                v
            },
            ArgumentList::DefaultArgument(id, expr, rest) => {
                let mut v: Vec<Token> = Vec::new();
                v.push(Token::Argument);
                v.push(Token::Ident(id.0.clone()));
                v.push(Token::Assign);
                v.push(expr.to_token());
                v.push(Token::Semicolon);
                let mut tail = rest.render_tokens();
                v.append(&mut tail);
                proof {
                    assert(v@ =~= canon_tokens(*self));
                }
                v
            },
        }
    }

    /// Renders the list back to its canonical source text; the text
    /// tokenizes to exactly `canon_tokens` of the list.
    pub fn render(&self) -> (s: String)
        ensures
            s@ == canon_text(*self),
        decreases *self,
    {
        match self {
            ArgumentList::End => String::new(),
            ArgumentList::VariadicArgument(id) => {
                let mut s = String::from_str("argument ...");
                s.append(id.0.as_str());
                s.append(";");
                proof {
                    assert(s@ =~= canon_text(*self));
                }
                s
            },
            ArgumentList::Argument(id, rest) => {
                let mut s = String::from_str("argument ");
                s.append(id.0.as_str());
                s.append(";");
                if !rest.is_end() {
                    s.append(" ");
                    let tail = rest.render();
                    s.append(tail.as_str());
                }
                proof {
                    assert(s@ =~= canon_text(*self));
                }
                s
            },
            ArgumentList::OptionalArgument(id, rest) => {
                let mut s = String::from_str("argument ");
                s.append(id.0.as_str());
                s.append("?;");
                if !rest.is_end() {
                    s.append(" ");
                    let tail = rest.render();
                    s.append(tail.as_str());
                }
                proof {
                    assert(s@ =~= canon_text(*self));
                }
                s
            },
            ArgumentList::DefaultArgument(id, expr, rest) => {
                let mut s = String::from_str("argument ");
                s.append(id.0.as_str());
                s.append(" = ");
                let e = expr.render();
                s.append(e.as_str());
                s.append(";");
                if !rest.is_end() {
                    s.append(" ");
                    let tail = rest.render();
                    s.append(tail.as_str());
                }
                proof {
                    assert(s@ =~= canon_text(*self));
                }
                s
            },
        }
    }
}

/// The round-trip law: re-parsing the canonical token sequence of any
/// list yields the list back, consuming exactly that sequence, whatever
/// follows it — provided what follows does not begin with the `argument`
/// keyword, which would read as more of the same list.
#[verifier::rlimit(100)]
pub proof fn lemma_round_trip(n: ArgumentList, rest: Seq<Token>, base: int)
    requires
        rest.len() == 0 || !(rest[0] is Argument),
    ensures
        spec_parse_args(canon_tokens(n) + rest, base) == Ok::<(ArgumentList, int), ParseFailure>(
            (n, canon_tokens(n).len() as int),
        ),
    decreases n,
{
    let t = canon_tokens(n) + rest;
    match n {
        ArgumentList::End => {
            assert(t =~= rest);
        },
        ArgumentList::VariadicArgument(id) => {
            assert(t.skip(2) =~= seq![Token::Ident(id.0), Token::Semicolon] + rest);
            assert(t.skip(3) =~= seq![Token::Semicolon] + rest);
            assert(spec_parse_identifier(t.skip(2), base + 2) == Ok::<Identifier, ParseFailure>(
                Identifier(id.0),
            ));
            assert(id == Identifier(id.0));
        },
        ArgumentList::Argument(id, tail) => {
            assert(t[0] == Token::Argument && t[1] == Token::Ident(id.0) && t[2]
                == Token::Semicolon);
            assert(t.skip(1) =~= seq![Token::Ident(id.0), Token::Semicolon] + canon_tokens(*tail)
                + rest);
            assert(t.skip(2) =~= seq![Token::Semicolon] + canon_tokens(*tail) + rest);
            assert(t.skip(3) =~= canon_tokens(*tail) + rest);
            assert(id == Identifier(id.0));
            lemma_round_trip(*tail, rest, base + 3);
        },
        ArgumentList::OptionalArgument(id, tail) => {
            assert(t[0] == Token::Argument && t[1] == Token::Ident(id.0) && t[2] == Token::Question
                && t[3] == Token::Semicolon);
            assert(t.skip(1) =~= seq![Token::Ident(id.0), Token::Question, Token::Semicolon]
                + canon_tokens(*tail) + rest);
            assert(t.skip(3) =~= seq![Token::Semicolon] + canon_tokens(*tail) + rest);
            assert(t.skip(4) =~= canon_tokens(*tail) + rest);
            assert(id == Identifier(id.0));
            lemma_round_trip(*tail, rest, base + 4);
        },
        ArgumentList::DefaultArgument(id, expr, tail) => {
            assert(t[0] == Token::Argument && t[1] == Token::Ident(id.0) && t[2] == Token::Assign
                && t[3] == expr.token() && t[4] == Token::Semicolon);
            assert(t.skip(1) =~= seq![
                Token::Ident(id.0),
                Token::Assign,
                expr.token(),
                Token::Semicolon,
            ] + canon_tokens(*tail) + rest);
            assert(t.skip(3) =~= seq![expr.token(), Token::Semicolon] + canon_tokens(*tail) + rest);
            assert(t.skip(4) =~= seq![Token::Semicolon] + canon_tokens(*tail) + rest);
            assert(t.skip(5) =~= canon_tokens(*tail) + rest);
            assert(id == Identifier(id.0));
            assert(spec_parse_expression(t.skip(3), base + 3) == Ok::<Expression, ParseFailure>(
                expr,
            ));
            lemma_round_trip(*tail, rest, base + 5);
        },
    }
}

/// A token sequence with each accepted terminator replaced by the
/// canonical one, the semicolon; all other tokens are kept as they are.
pub open spec fn normalize_terminators(t: Seq<Token>) -> Seq<Token> {
    t.map(
        |i: int, tok: Token|
            if is_terminator(tok) {
                Token::Semicolon
            } else {
                tok
            },
    )
}

/// A successful parse consumes a prefix of the input and nothing more:
/// the consumed count never exceeds the input length.
pub proof fn lemma_parse_consumed_bounds(t: Seq<Token>, base: int)
    ensures
        spec_parse_args(t, base) matches Ok(pair) ==> 0 <= pair.1 <= t.len(),
    decreases t.len(),
{
    if t.len() == 0 || !(t[0] is Argument) {
    } else if t.len() >= 2 && t[1] is DotDotDot {
    } else {
        if t.len() >= 3 {
            lemma_parse_consumed_bounds(t.skip(3), base + 3);
        }
        if t.len() >= 4 {
            lemma_parse_consumed_bounds(t.skip(4), base + 4);
        }
        if t.len() >= 5 {
            lemma_parse_consumed_bounds(t.skip(5), base + 5);
        }
    }
}

/// The complementary round-trip direction: whatever token sequence the
/// parser accepts, the canonical token sequence of the parsed list is
/// exactly the consumed prefix of the input, up to normalizing each
/// end-of-line terminator to a semicolon.
#[verifier::rlimit(100)]
pub proof fn lemma_parse_canonizes(t: Seq<Token>, base: int)
    ensures
        spec_parse_args(t, base) matches Ok(pair) ==> canon_tokens(pair.0)
            == normalize_terminators(t.take(pair.1)),
    decreases t.len(),
{
    if t.len() == 0 || !(t[0] is Argument) {
        assert(normalize_terminators(t.take(0)) =~= Seq::<Token>::empty());
    } else if t.len() >= 2 && t[1] is DotDotDot {
        match spec_parse_identifier(t.skip(2), base + 2) {
            Err(_) => {},
            Ok(id) => match spec_parse_terminator(t.skip(3), base + 3) {
                Err(_) => {},
                Ok(_) => {
                    assert(canon_tokens(ArgumentList::VariadicArgument(id))
                        =~= normalize_terminators(t.take(4)));
                },
            },
        }
    } else {
        match spec_parse_identifier(t.skip(1), base + 1) {
            Err(_) => {},
            Ok(id) => {
                if t.len() >= 3 && t[2] is Question {
                    match spec_parse_terminator(t.skip(3), base + 3) {
                        Err(_) => {},
                        Ok(_) => {
                            lemma_parse_canonizes(t.skip(4), base + 4);
                            match spec_parse_args(t.skip(4), base + 4) {
                                Err(_) => {},
                                Ok(rest) => {
                                    lemma_parse_consumed_bounds(t.skip(4), base + 4);
                                    assert(t.take(4 + rest.1) =~= t.take(4) + t.skip(4).take(
                                        rest.1,
                                    ));
                                    assert(normalize_terminators(t.take(4) + t.skip(4).take(rest.1))
                                        =~= normalize_terminators(t.take(4))
                                        + normalize_terminators(t.skip(4).take(rest.1)));
                                    assert(canon_tokens(
                                        ArgumentList::OptionalArgument(id, Box::new(rest.0)),
                                    ) =~= normalize_terminators(t.take(4)) + canon_tokens(rest.0));
                                },
                            }
                        },
                    }
                } else if t.len() >= 3 && t[2] is Assign {
                    match spec_parse_expression(t.skip(3), base + 3) {
                        Err(_) => {},
                        Ok(expr) => match spec_parse_terminator(t.skip(4), base + 4) {
                            Err(_) => {},
                            Ok(_) => {
                                lemma_parse_canonizes(t.skip(5), base + 5);
                                match spec_parse_args(t.skip(5), base + 5) {
                                    Err(_) => {},
                                    Ok(rest) => {
                                        lemma_parse_consumed_bounds(t.skip(5), base + 5);
                                        assert(t.take(5 + rest.1) =~= t.take(5) + t.skip(5).take(
                                            rest.1,
                                        ));
                                        assert(normalize_terminators(
                                            t.take(5) + t.skip(5).take(rest.1),
                                        ) =~= normalize_terminators(t.take(5))
                                            + normalize_terminators(t.skip(5).take(rest.1)));
                                        assert(canon_tokens(
                                            ArgumentList::DefaultArgument(
                                                id,
                                                expr,
                                                Box::new(rest.0),
                                            ),
                                        ) =~= normalize_terminators(t.take(5)) + canon_tokens(
                                            rest.0,
                                        ));
                                    },
                                }
                            },
                        },
                    }
                } else {
                    match spec_parse_terminator(t.skip(2), base + 2) {
                        Err(_) => {},
                        Ok(_) => {
                            lemma_parse_canonizes(t.skip(3), base + 3);
                            match spec_parse_args(t.skip(3), base + 3) {
                                Err(_) => {},
                                Ok(rest) => {
                                    lemma_parse_consumed_bounds(t.skip(3), base + 3);
                                    assert(t.take(3 + rest.1) =~= t.take(3) + t.skip(3).take(
                                        rest.1,
                                    ));
                                    assert(normalize_terminators(t.take(3) + t.skip(3).take(rest.1))
                                        =~= normalize_terminators(t.take(3))
                                        + normalize_terminators(t.skip(3).take(rest.1)));
                                    assert(canon_tokens(
                                        ArgumentList::Argument(id, Box::new(rest.0)),
                                    ) =~= normalize_terminators(t.take(3)) + canon_tokens(rest.0));
                                },
                            }
                        },
                    }
                }
            },
        }
    }
}

impl Fragment for ArgumentList {
    /// Recursive descent over a lookahead of the next one or two tokens:
    ///
    /// - `argument ...` introduces a terminal variadic parameter;
    /// - `argument` alone introduces a parameter whose following token
    ///   (`?`, `=`, or anything else) selects the alternative, after which
    ///   the remainder of the list is parsed recursively;
    /// - any other lookahead means the list is over.
    fn parse(tokens: &mut Tokens) -> (r: Result<ArgumentList, ParseFailure>)
        ensures
            match spec_parse_args(old(tokens).remaining(), old(tokens).position()) {
                Ok(pair) => r == Ok::<ArgumentList, ParseFailure>(pair.0) && final(tokens).position() == old(tokens).position() + pair.1,
                Err(e) => r == Err::<ArgumentList, ParseFailure>(e),
            },
        decreases tokens.remaining().len(),
    {
        let ghost t0 = tokens.remaining();
        let ghost base = tokens.position();
        let start = tokens.pos();

        let introduces = match tokens.peek() {
            Some(Token::Argument) => true,
            _ => false,
        };
        if !introduces {
            return Ok(ArgumentList::End);
        }
        proof {
            tokens.lemma_len_bound();
        }
        let variadic = match tokens.window(2) {
            Ok(w) => match &w[1] {
                Token::DotDotDot => true,
                _ => false,
            },
            Err(_) => false,
        };
        if variadic {
            tokens.skip(2);
            proof {
                assert(tokens.remaining() =~= t0.skip(2));
            }
            let id = match Identifier::parse(tokens) {
                Ok(id) => id,
                Err(e) => {
                    tokens.seek(start);
                    return Err(ParseFailure::MalformedSubExpression(Box::new(e)));
                },
            };
            proof {
                assert(tokens.remaining() =~= t0.skip(3));
            }
            match semi_or_eol(tokens) {
                Ok(_) => {},
                Err(e) => {
                    tokens.seek(start);
                    return Err(e);
                },
            }
            Ok(ArgumentList::VariadicArgument(id))
        } else {
            tokens.skip(1);
            proof {
                assert(tokens.remaining() =~= t0.skip(1));
            }
            let id = match Identifier::parse(tokens) {
                Ok(id) => id,
                Err(e) => {
                    tokens.seek(start);
                    return Err(ParseFailure::MalformedSubExpression(Box::new(e)));
                },
            };
            proof {
                assert(tokens.remaining() =~= t0.skip(2));
            }
            match tokens.peek() {
                Some(Token::Question) => {
                    tokens.skip(1);
                    proof {
                        assert(tokens.remaining() =~= t0.skip(3));
                    }
                    match semi_or_eol(tokens) {
                        Ok(_) => {},
                        Err(e) => {
                            tokens.seek(start);
                            return Err(e);
                        },
                    }
                    proof {
                        assert(tokens.remaining() =~= t0.skip(4));
                    }
                    let rest = match Self::parse(tokens) {
                        Ok(rest) => rest,
                        Err(e) => {
                            tokens.seek(start);
                            return Err(e);
                        },
                    };
                    Ok(ArgumentList::OptionalArgument(id, Box::new(rest)))
                },
                Some(Token::Assign) => {
                    tokens.skip(1);
                    proof {
                        assert(tokens.remaining() =~= t0.skip(3));
                    }
                    let expr = match Expression::parse(tokens) {
                        Ok(expr) => expr,
                        Err(e) => {
                            tokens.seek(start);
                            return Err(ParseFailure::MalformedSubExpression(Box::new(e)));
                        },
                    };
                    proof {
                        assert(tokens.remaining() =~= t0.skip(4));
                    }
                    match semi_or_eol(tokens) {
                        Ok(_) => {},
                        Err(e) => {
                            tokens.seek(start);
                            return Err(e);
                        },
                    }
                    proof {
                        assert(tokens.remaining() =~= t0.skip(5));
                    }
                    let rest = match Self::parse(tokens) {
                        Ok(rest) => rest,
                        Err(e) => {
                            tokens.seek(start);
                            return Err(e);
                        },
                    };
                    Ok(ArgumentList::DefaultArgument(id, expr, Box::new(rest)))
                },
                _ => {
                    match semi_or_eol(tokens) {
                        Ok(_) => {},
                        Err(e) => {
                            tokens.seek(start);
                            return Err(e);
                        },
                    }
                    proof {
                        assert(tokens.remaining() =~= t0.skip(3));
                    }
                    let rest = match Self::parse(tokens) {
                        Ok(rest) => rest,
                        Err(e) => {
                            tokens.seek(start);
                            return Err(e);
                        },
                    };
                    Ok(ArgumentList::Argument(id, Box::new(rest)))
                },
            }
        }
    }
}

} // verus!
