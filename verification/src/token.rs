use crate::span::Span;
use vstd::prelude::*;

verus! {

/// A lexed token: a tag, the source span it covers, and — for the
/// text-bearing kinds — the matched text. The text of a `Value` token still
/// carries the surrounding quote characters, exactly as the lexer matched
/// them.
#[derive(Debug, PartialEq)]
pub enum Token {
    LAngle { position: Span },
    RAngle { position: Span },
    Equals { position: Span },
    Slash { position: Span },
    Identifier { position: Span, value: String },
    Value { position: Span, value: String },
}

/// The mathematical shape of a `Token`: text as a sequence of characters.
pub enum TokenV {
    LAngle { position: Span },
    RAngle { position: Span },
    Equals { position: Span },
    Slash { position: Span },
    Identifier { position: Span, value: Seq<char> },
    Value { position: Span, value: Seq<char> },
}

/// The tag-only projection of the token set, used for matching without
/// looking at any payload.
#[derive(Clone, Copy, Debug, PartialEq, Eq, Structural)]
pub enum TokenKind {
    LAngle,
    RAngle,
    Equals,
    Slash,
    Identifier,
    Value,
}

impl View for Token {
    type V = TokenV;

    open spec fn view(&self) -> TokenV {
        match self {
            Token::LAngle { position } => TokenV::LAngle { position: *position },
            Token::RAngle { position } => TokenV::RAngle { position: *position },
            Token::Equals { position } => TokenV::Equals { position: *position },
            Token::Slash { position } => TokenV::Slash { position: *position },
            Token::Identifier { position, value } => TokenV::Identifier {
                position: *position,
                value: value@,
            },
            Token::Value { position, value } => TokenV::Value {
                position: *position,
                value: value@,
            },
        }
    }
}

impl DeepView for Token {
    type V = TokenV;

    open spec fn deep_view(&self) -> TokenV {
        self.view()
    }
}

impl Clone for Token {
    /// A clone is the same token; contracts downstream rely on that.
    fn clone(&self) -> (r: Self)
        ensures
            r == *self,
    {
        match self {
            Token::LAngle { position } => Token::LAngle { position: *position },
            Token::RAngle { position } => Token::RAngle { position: *position },
            Token::Equals { position } => Token::Equals { position: *position },
            Token::Slash { position } => Token::Slash { position: *position },
            Token::Identifier { position, value } => Token::Identifier {
                position: *position,
                value: value.clone(),
            },
            Token::Value { position, value } => Token::Value {
                position: *position,
                value: value.clone(),
            },
        }
    }
}

impl TokenV {
    /// The tag of a token, with every payload forgotten.
    pub open spec fn kind(self) -> TokenKind {
        match self {
            TokenV::LAngle { .. } => TokenKind::LAngle,
            TokenV::RAngle { .. } => TokenKind::RAngle,
            TokenV::Equals { .. } => TokenKind::Equals,
            TokenV::Slash { .. } => TokenKind::Slash,
            TokenV::Identifier { .. } => TokenKind::Identifier,
            TokenV::Value { .. } => TokenKind::Value,
        }
    }
}

impl Token {
    /// The tag-only projection of this token.
    pub fn kind(&self) -> (k: TokenKind)
        ensures
            k == self@.kind(),
    {
        match self {
            Token::LAngle { .. } => TokenKind::LAngle,
            Token::RAngle { .. } => TokenKind::RAngle,
            Token::Equals { .. } => TokenKind::Equals,
            Token::Slash { .. } => TokenKind::Slash,
            Token::Identifier { .. } => TokenKind::Identifier,
            Token::Value { .. } => TokenKind::Value,
        }
    }
}

impl TokenKind {
    /// The payload-ignoring equality between an abstract kind and a concrete
    /// token: they are equal exactly when their tags agree.
    pub fn matches(&self, t: &Token) -> (r: bool)
        ensures
            r == (t@.kind() == *self),
    {
        *self == t.kind()
    }
}

/// A single token as a well-formed lexer hands it over: the text of a
/// `Value` token is enclosed in one leading and one trailing quote.
pub open spec fn wf_token(t: TokenV) -> bool {
    match t {
        TokenV::Value { value, .. } => value.len() >= 2 && value[0] == '"' && value[value.len()
            - 1] == '"',
        _ => true,
    }
}

/// A token sequence as a well-formed lexer hands it over.
pub open spec fn wf_tokens(toks: Seq<TokenV>) -> bool {
    forall|i: int| 0 <= i < toks.len() ==> wf_token(#[trigger] toks[i])
}

} // verus!
