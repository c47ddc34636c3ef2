use html_parser::{
    AstNode, ParseError, ParseStream, Parseable, ParsedIdentifier, Span, Token, TokenKind,
};

fn span(start: usize, end: usize) -> Span {
    Span { start, end }
}

#[test]
fn identifier_test_ident() {
    // Tokens for the input `foo`.
    let mut tokens = ParseStream::new(vec![Token::Identifier {
        position: span(0, 3),
        value: String::from("foo"),
    }]);
    let result = ParsedIdentifier::try_parse(&mut tokens);

    assert_eq!(
        result,
        Ok(AstNode::Identifier(ParsedIdentifier {
            value: "foo".into(),
            position: span(0, 3),
        }))
    );
}

#[test]
fn identifier_test_non_ident() {
    // Tokens for the input `<foo`.
    let mut tokens = ParseStream::new(vec![
        Token::LAngle { position: span(0, 1) },
        Token::Identifier { position: span(1, 4), value: String::from("foo") },
    ]);
    let result = ParsedIdentifier::try_parse(&mut tokens);

    assert_eq!(
        result,
        Err(ParseError::Mismatch(
            TokenKind::Identifier,
            Token::LAngle { position: span(0, 1) },
        ))
    );
}

#[test]
fn identifier_test_eof() {
    let mut tokens = ParseStream::new(vec![]);
    let result = ParsedIdentifier::try_parse(&mut tokens);

    assert_eq!(result, Err(ParseError::Eof));
}
