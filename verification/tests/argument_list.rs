use gmlpp::argument_list::ArgumentList;
use gmlpp::expression::Expression;
use gmlpp::failure::{Expectation, ParseFailure};
use gmlpp::fragment::Fragment;
use gmlpp::identifier::Identifier;
use gmlpp::token::Token;
use gmlpp::tokens::Tokens;

#[test]
fn required_argument() {
    let mut toks = Tokens::new(vec![
        Token::Argument,
        Token::Ident("x".to_string()),
        Token::Semicolon,
    ]);
    let r = ArgumentList::parse(&mut toks);
    assert_eq!(
        r,
        Ok(ArgumentList::Argument(
            Identifier("x".to_string()),
            Box::new(ArgumentList::End)
        ))
    );
    assert_eq!(toks.pos(), 3);
}

#[test]
fn defaulted_argument() {
    let mut toks = Tokens::new(vec![
        Token::Argument,
        Token::Ident("y".to_string()),
        Token::Assign,
        Token::Number("5".to_string()),
        Token::Semicolon,
    ]);
    let r = ArgumentList::parse(&mut toks);
    assert_eq!(
        r,
        Ok(ArgumentList::DefaultArgument(
            Identifier("y".to_string()),
            Expression::Literal("5".to_string()),
            Box::new(ArgumentList::End)
        ))
    );
    assert_eq!(toks.pos(), 5);
}

#[test]
fn optional_argument_with_eol_terminator() {
    let mut toks = Tokens::new(vec![
        Token::Argument,
        Token::Ident("z".to_string()),
        Token::Question,
        Token::Eol,
    ]);
    let r = ArgumentList::parse(&mut toks);
    assert_eq!(
        r,
        Ok(ArgumentList::OptionalArgument(
            Identifier("z".to_string()),
            Box::new(ArgumentList::End)
        ))
    );
    assert_eq!(toks.pos(), 4);
}

#[test]
fn variadic_argument() {
    let mut toks = Tokens::new(vec![
        Token::Argument,
        Token::DotDotDot,
        Token::Ident("rest".to_string()),
        Token::Semicolon,
    ]);
    let r = ArgumentList::parse(&mut toks);
    assert_eq!(
        r,
        Ok(ArgumentList::VariadicArgument(Identifier(
            "rest".to_string()
        )))
    );
    assert_eq!(toks.pos(), 4);
}

#[test]
fn three_element_list() {
    let mut toks = Tokens::new(vec![
        Token::Argument,
        Token::Ident("a".to_string()),
        Token::Semicolon,
        Token::Argument,
        Token::Ident("b".to_string()),
        Token::Assign,
        Token::Number("1".to_string()),
        Token::Semicolon,
        Token::Argument,
        Token::DotDotDot,
        Token::Ident("c".to_string()),
        Token::Semicolon,
    ]);
    let r = ArgumentList::parse(&mut toks);
    assert_eq!(
        r,
        Ok(ArgumentList::Argument(
            Identifier("a".to_string()),
            Box::new(ArgumentList::DefaultArgument(
                Identifier("b".to_string()),
                Expression::Literal("1".to_string()),
                Box::new(ArgumentList::VariadicArgument(Identifier("c".to_string())))
            ))
        ))
    );
    assert_eq!(toks.pos(), 12);
}

#[test]
fn no_leading_keyword_gives_empty_list() {
    let mut toks = Tokens::new(vec![Token::Ident("x".to_string()), Token::Semicolon]);
    let r = ArgumentList::parse(&mut toks);
    assert_eq!(r, Ok(ArgumentList::End));
    assert_eq!(toks.pos(), 0);
}

#[test]
fn empty_input_gives_empty_list() {
    let mut toks = Tokens::new(vec![]);
    let r = ArgumentList::parse(&mut toks);
    assert_eq!(r, Ok(ArgumentList::End));
    assert_eq!(toks.pos(), 0);
}

#[test]
fn required_then_variadic() {
    let mut toks = Tokens::new(vec![
        Token::Argument,
        Token::Ident("a".to_string()),
        Token::Semicolon,
        Token::Argument,
        Token::DotDotDot,
        Token::Ident("b".to_string()),
        Token::Semicolon,
    ]);
    let r = ArgumentList::parse(&mut toks);
    assert_eq!(
        r,
        Ok(ArgumentList::Argument(
            Identifier("a".to_string()),
            Box::new(ArgumentList::VariadicArgument(Identifier("b".to_string())))
        ))
    );
    assert_eq!(toks.pos(), 7);
}

#[test]
fn argument_after_variadic_is_rejected() {
    let mut toks = Tokens::new(vec![
        Token::Argument,
        Token::Ident("a".to_string()),
        Token::Semicolon,
        Token::Argument,
        Token::DotDotDot,
        Token::Ident("b".to_string()),
        Token::Semicolon,
        Token::Argument,
        Token::Ident("c".to_string()),
        Token::Semicolon,
    ]);
    let r = ArgumentList::parse_complete(&mut toks);
    assert_eq!(
        r,
        Err(ParseFailure::UnexpectedToken {
            expected: Expectation::ListEnd,
            found: Token::Argument,
            at: 7,
        })
    );
    assert_eq!(toks.pos(), 0);
}

#[test]
fn parse_complete_accepts_full_list() {
    let mut toks = Tokens::new(vec![
        Token::Argument,
        Token::Ident("a".to_string()),
        Token::Semicolon,
        Token::Argument,
        Token::DotDotDot,
        Token::Ident("b".to_string()),
        Token::Semicolon,
    ]);
    let r = ArgumentList::parse_complete(&mut toks);
    assert_eq!(
        r,
        Ok(ArgumentList::Argument(
            Identifier("a".to_string()),
            Box::new(ArgumentList::VariadicArgument(Identifier("b".to_string())))
        ))
    );
    assert_eq!(toks.pos(), 7);
}

#[test]
fn missing_terminator_fails_cleanly() {
    let mut toks = Tokens::new(vec![
        Token::Argument,
        Token::Ident("x".to_string()),
        Token::Question,
        Token::Question,
    ]);
    let r = ArgumentList::parse(&mut toks);
    assert_eq!(
        r,
        Err(ParseFailure::UnexpectedToken {
            expected: Expectation::Terminator,
            found: Token::Question,
            at: 3,
        })
    );
    assert_eq!(toks.pos(), 0);
}

#[test]
fn missing_identifier_is_wrapped() {
    let mut toks = Tokens::new(vec![Token::Argument, Token::Semicolon]);
    let r = ArgumentList::parse(&mut toks);
    assert_eq!(
        r,
        Err(ParseFailure::MalformedSubExpression(Box::new(
            ParseFailure::UnexpectedToken {
                expected: Expectation::IdentifierName,
                found: Token::Semicolon,
                at: 1,
            }
        )))
    );
    assert_eq!(toks.pos(), 0);
}

#[test]
fn truncated_input_reports_end_of_input() {
    let mut toks = Tokens::new(vec![Token::Argument]);
    let r = ArgumentList::parse(&mut toks);
    assert_eq!(
        r,
        Err(ParseFailure::MalformedSubExpression(Box::new(
            ParseFailure::UnexpectedEndOfInput { at: 1 }
        )))
    );
    assert_eq!(toks.pos(), 0);
}

#[test]
fn malformed_default_expression_is_wrapped() {
    let mut toks = Tokens::new(vec![
        Token::Argument,
        Token::Ident("y".to_string()),
        Token::Assign,
        Token::Semicolon,
    ]);
    let r = ArgumentList::parse(&mut toks);
    assert_eq!(
        r,
        Err(ParseFailure::MalformedSubExpression(Box::new(
            ParseFailure::UnexpectedToken {
                expected: Expectation::ExpressionValue,
                found: Token::Semicolon,
                at: 3,
            }
        )))
    );
    assert_eq!(toks.pos(), 0);
}

#[test]
fn variadic_without_terminator_fails_cleanly() {
    let mut toks = Tokens::new(vec![
        Token::Argument,
        Token::DotDotDot,
        Token::Ident("r".to_string()),
    ]);
    let r = ArgumentList::parse(&mut toks);
    assert_eq!(r, Err(ParseFailure::UnexpectedEndOfInput { at: 3 }));
    assert_eq!(toks.pos(), 0);
}

#[test]
fn failure_in_the_tail_restores_the_whole_position() {
    let mut toks = Tokens::new(vec![
        Token::Argument,
        Token::Ident("a".to_string()),
        Token::Semicolon,
        Token::Argument,
        Token::Assign,
    ]);
    let r = ArgumentList::parse(&mut toks);
    assert_eq!(
        r,
        Err(ParseFailure::MalformedSubExpression(Box::new(
            ParseFailure::UnexpectedToken {
                expected: Expectation::IdentifierName,
                found: Token::Assign,
                at: 4,
            }
        )))
    );
    assert_eq!(toks.pos(), 0);
}

#[test]
fn render_tokens_round_trips() {
    let node = ArgumentList::Argument(
        Identifier("a".to_string()),
        Box::new(ArgumentList::DefaultArgument(
            Identifier("b".to_string()),
            Expression::Literal("1".to_string()),
            Box::new(ArgumentList::OptionalArgument(
                Identifier("c".to_string()),
                Box::new(ArgumentList::VariadicArgument(Identifier("d".to_string()))),
            )),
        )),
    );
    let toks = node.render_tokens();
    let mut cursor = Tokens::new(toks);
    let reparsed = ArgumentList::parse(&mut cursor).unwrap();
    assert_eq!(reparsed, node);
    assert!(cursor.peek().is_none());
}

#[test]
fn render_single_required() {
    let node = ArgumentList::Argument(Identifier("x".to_string()), Box::new(ArgumentList::End));
    assert_eq!(node.render(), "argument x;");
}

#[test]
fn render_full_list() {
    let node = ArgumentList::Argument(
        Identifier("a".to_string()),
        Box::new(ArgumentList::DefaultArgument(
            Identifier("b".to_string()),
            Expression::Literal("1".to_string()),
            Box::new(ArgumentList::OptionalArgument(
                Identifier("c".to_string()),
                Box::new(ArgumentList::VariadicArgument(Identifier("d".to_string()))),
            )),
        )),
    );
    assert_eq!(
        node.render(),
        "argument a; argument b = 1; argument c?; argument ...d;"
    );
}

#[test]
fn render_empty_list() {
    assert_eq!(ArgumentList::End.render(), "");
    assert_eq!(ArgumentList::End.render_tokens(), vec![]);
}

#[test]
fn render_normalizes_eol_terminators() {
    let mut toks = Tokens::new(vec![
        Token::Argument,
        Token::Ident("a".to_string()),
        Token::Eol,
        Token::Argument,
        Token::Ident("b".to_string()),
        Token::Eol,
    ]);
    let node = ArgumentList::parse(&mut toks).unwrap();
    assert_eq!(node.render(), "argument a; argument b;");
    assert_eq!(
        node.render_tokens(),
        vec![
            Token::Argument,
            Token::Ident("a".to_string()),
            Token::Semicolon,
            Token::Argument,
            Token::Ident("b".to_string()),
            Token::Semicolon,
        ]
    );
}

#[test]
fn rendered_text_retokenizes_to_rendered_tokens() {
    let node = ArgumentList::OptionalArgument(
        Identifier("q".to_string()),
        Box::new(ArgumentList::VariadicArgument(Identifier("w".to_string()))),
    );
    assert_eq!(node.render(), "argument q?; argument ...w;");
    assert_eq!(
        node.render_tokens(),
        vec![
            Token::Argument,
            Token::Ident("q".to_string()),
            Token::Question,
            Token::Semicolon,
            Token::Argument,
            Token::DotDotDot,
            Token::Ident("w".to_string()),
            Token::Semicolon,
        ]
    );
}
