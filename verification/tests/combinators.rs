use html_parser::{
    AstNode, Combinator, ParseError, ParseStream, ParsedIdentifier, ParsedValue, Span, Token,
    TokenKind,
};

fn span(start: usize, end: usize) -> Span {
    Span { start, end }
}

fn ident(start: usize, end: usize, text: &str) -> Token {
    Token::Identifier { position: span(start, end), value: String::from(text) }
}

fn value(start: usize, end: usize, text: &str) -> Token {
    Token::Value { position: span(start, end), value: String::from(text) }
}

#[test]
fn test_consumer() {
    // Tokens for the input `<`.
    let mut stream = ParseStream::new(vec![Token::LAngle { position: span(0, 1) }]);
    let combs = Combinator::langle();

    let result = combs.try_parse(&mut stream);

    assert_eq!(result, Ok(vec![]));
}

#[test]
fn test_yields() {
    // Tokens for the input `foo`.
    let mut stream = ParseStream::new(vec![ident(0, 3, "foo")]);
    let combs = Combinator::identifier();

    let result = combs.try_parse(&mut stream);

    assert_eq!(
        result,
        Ok(vec![AstNode::Identifier(ParsedIdentifier {
            position: span(0, 3),
            value: String::from("foo"),
        })])
    );
}

#[test]
fn test_sequence() {
    // Tokens for the input `<foo>`.
    let mut stream = ParseStream::new(vec![
        Token::LAngle { position: span(0, 1) },
        ident(1, 4, "foo"),
        Token::RAngle { position: span(4, 5) },
    ]);
    let combs = Combinator::langle().shr(Combinator::identifier()).shr(Combinator::rangle());

    let result = combs.try_parse(&mut stream);

    assert_eq!(
        result,
        Ok(vec![AstNode::Identifier(ParsedIdentifier {
            position: span(1, 4),
            value: String::from("foo"),
        })])
    );
}

#[test]
fn consumer_matches_iff_kind_matches() {
    // The consumer succeeds exactly when the next token carries its kind;
    // on a mismatch it reports the expected kind and the actual token, and
    // the token is consumed either way.
    let mut stream = ParseStream::new(vec![Token::LAngle { position: span(0, 1) }]);
    let result = Combinator::rangle().try_parse(&mut stream);

    assert_eq!(
        result,
        Err(ParseError::Mismatch(
            TokenKind::RAngle,
            Token::LAngle { position: span(0, 1) },
        ))
    );
    assert_eq!(stream.position(), 1);
}

#[test]
fn exhausted_stream_gives_eof_not_mismatch() {
    // Any combinator invoked on an exhausted stream reports exhaustion.
    let mut stream = ParseStream::new(vec![]);
    assert_eq!(Combinator::langle().try_parse(&mut stream), Err(ParseError::Eof));

    let mut stream = ParseStream::new(vec![]);
    assert_eq!(Combinator::identifier().try_parse(&mut stream), Err(ParseError::Eof));

    let mut stream = ParseStream::new(vec![]);
    let chain = Combinator::langle().shr(Combinator::identifier());
    assert_eq!(chain.try_parse(&mut stream), Err(ParseError::Eof));
}

#[test]
fn sequence_is_associative_on_success() {
    // Both groupings of a three-matcher chain yield the same ordered node
    // list and leave the cursor at the same place.
    let tokens = vec![
        Token::LAngle { position: span(0, 1) },
        ident(1, 4, "foo"),
        Token::RAngle { position: span(4, 5) },
    ];

    let mut left_stream = ParseStream::new(tokens.clone());
    let left_grouped = Combinator::langle()
        .shr(Combinator::identifier())
        .shr(Combinator::rangle());
    let left_result = left_grouped.try_parse(&mut left_stream);

    let mut right_stream = ParseStream::new(tokens);
    let right_grouped = Combinator::langle()
        .shr(Combinator::identifier().shr(Combinator::rangle()));
    let right_result = right_grouped.try_parse(&mut right_stream);

    assert!(left_result.is_ok());
    assert_eq!(left_result, right_result);
    assert_eq!(left_stream.position(), right_stream.position());
}

#[test]
fn end_to_end_success() {
    // Tokens for the input `<foo test="yes">` driven through the full
    // chain: the yielded nodes are the two identifiers and the value.
    let mut stream = ParseStream::new(vec![
        Token::LAngle { position: span(0, 1) },
        ident(1, 4, "foo"),
        ident(5, 9, "test"),
        Token::Equals { position: span(9, 10) },
        value(10, 15, "\"yes\""),
        Token::RAngle { position: span(15, 16) },
    ]);
    let combs = Combinator::langle()
        .shr(Combinator::identifier())
        .shr(Combinator::identifier())
        .shr(Combinator::equals())
        .shr(Combinator::value())
        .shr(Combinator::rangle());

    let result = combs.try_parse(&mut stream);

    assert_eq!(
        result,
        Ok(vec![
            AstNode::Identifier(ParsedIdentifier {
                position: span(1, 4),
                value: String::from("foo"),
            }),
            AstNode::Identifier(ParsedIdentifier {
                position: span(5, 9),
                value: String::from("test"),
            }),
            AstNode::Value(ParsedValue {
                position: span(10, 15),
                value: String::from("yes"),
            }),
        ])
    );
}

#[test]
fn end_to_end_failure() {
    // Tokens for the input `<foo` driven through a chain that requires a
    // closing `>` after the identifier: the stream runs out.
    let mut stream = ParseStream::new(vec![
        Token::LAngle { position: span(0, 1) },
        ident(1, 4, "foo"),
    ]);
    let combs = Combinator::langle()
        .shr(Combinator::identifier())
        .shr(Combinator::rangle());

    let result = combs.try_parse(&mut stream);

    assert_eq!(result, Err(ParseError::Eof));
}

#[test]
fn sequence_stops_at_first_failure() {
    // The first failure aborts the chain: nothing after it runs, and the
    // tokens already consumed stay consumed.
    let mut stream = ParseStream::new(vec![
        Token::RAngle { position: span(0, 1) },
        ident(1, 4, "foo"),
    ]);
    let combs = Combinator::langle().shr(Combinator::identifier());

    let result = combs.try_parse(&mut stream);

    assert_eq!(
        result,
        Err(ParseError::Mismatch(
            TokenKind::LAngle,
            Token::RAngle { position: span(0, 1) },
        ))
    );
    assert_eq!(stream.position(), 1);
}
