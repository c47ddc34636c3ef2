use crate::combinators::{ParseError, ParseErrorV};
use crate::parse_stream::ParseStream;
use crate::span::Span;
use crate::token::{wf_tokens, Token, TokenKind, TokenV};
use vstd::prelude::*;

verus! {

/// An identifier node: the text and span of one `Identifier` token.
#[derive(Debug, Clone, PartialEq)]
pub struct ParsedIdentifier {
    pub position: Span,
    pub value: String,
}

/// A value node: the text of one `Value` token with the enclosing quotes
/// stripped, and the token's span.
#[derive(Debug, Clone, PartialEq)]
pub struct ParsedValue {
    pub position: Span,
    pub value: String,
}

/// An attribute node: either an explicit `key="value"` pair, or a bare key
/// standing for a boolean that is set.
#[derive(Debug, Clone, PartialEq)]
pub enum Attribute {
    KeyValue { key: String, value: String, position: Span },
    Boolean { key: String, set: bool, position: Span },
}

/// The closed set of node shapes a parse can construct.
#[derive(Debug, Clone, PartialEq)]
pub enum AstNode {
    Identifier(ParsedIdentifier),
    Value(ParsedValue),
    Attribute(Attribute),
}

/// The mathematical shape of `ParsedIdentifier`.
pub struct ParsedIdentifierV {
    pub position: Span,
    pub value: Seq<char>,
}

/// The mathematical shape of `ParsedValue`.
pub struct ParsedValueV {
    pub position: Span,
    pub value: Seq<char>,
}

/// The mathematical shape of `Attribute`.
pub enum AttributeV {
    KeyValue { key: Seq<char>, value: Seq<char>, position: Span },
    Boolean { key: Seq<char>, set: bool, position: Span },
}

/// The mathematical shape of `AstNode`.
pub enum AstNodeV {
    Identifier(ParsedIdentifierV),
    Value(ParsedValueV),
    Attribute(AttributeV),
}

impl View for ParsedIdentifier {
    type V = ParsedIdentifierV;

    open spec fn view(&self) -> ParsedIdentifierV {
        ParsedIdentifierV { position: self.position, value: self.value@ }
    }
}

impl View for ParsedValue {
    type V = ParsedValueV;

    open spec fn view(&self) -> ParsedValueV {
        ParsedValueV { position: self.position, value: self.value@ }
    }
}

impl View for Attribute {
    type V = AttributeV;

    open spec fn view(&self) -> AttributeV {
        match self {
            Attribute::KeyValue { key, value, position } => AttributeV::KeyValue {
                key: key@,
                value: value@,
                position: *position,
            },
            Attribute::Boolean { key, set, position } => AttributeV::Boolean {
                key: key@,
                set: *set,
                position: *position,
            },
        }
    }
}

impl View for AstNode {
    type V = AstNodeV;

    open spec fn view(&self) -> AstNodeV {
        match self {
            AstNode::Identifier(n) => AstNodeV::Identifier(n@),
            AstNode::Value(n) => AstNodeV::Value(n@),
            AstNode::Attribute(n) => AstNodeV::Attribute(n@),
        }
    }
}

impl DeepView for AstNode {
    type V = AstNodeV;

    open spec fn deep_view(&self) -> AstNodeV {
        self.view()
    }
}

/// The node shapes that `Parseable` implementations construct, as a tag.
#[derive(Clone, Copy, Debug, PartialEq, Eq, Structural)]
pub enum NodeKind {
    Identifier,
    Value,
    Attribute,
}

/// The lower-casing of a piece of text, left abstract; `lowercase` below
/// ties it to what `str::to_lowercase` returns, which depends on the
/// characters alone.
pub uninterp spec fn lower_of(s: Seq<char>) -> Seq<char>;

/// Relies on `str::to_lowercase` from std: the returned text is the
/// lower-casing of the input text, a function of the characters alone.
#[verifier::external_body]
fn lowercase(s: &str) -> (r: String)
    ensures
        r@ == lower_of(s@),
{
    s.to_lowercase()
}

/// How far a single node parse can advance the cursor, at most.
pub open spec fn node_max_advance(k: NodeKind) -> nat {
    match k {
        NodeKind::Identifier => 1,
        NodeKind::Value => 1,
        NodeKind::Attribute => 3,
    }
}

/// What parsing an identifier node from `toks` at cursor `pos` yields, and
/// where it leaves the cursor. The token looked at is consumed whether or
/// not it matched.
pub open spec fn spec_identifier_node(toks: Seq<TokenV>, pos: int) -> (Result<
    ParsedIdentifierV,
    ParseErrorV,
>, int) {
    if pos >= toks.len() {
        (Err(ParseErrorV::Eof), pos + 1)
    } else {
        match toks[pos] {
            TokenV::Identifier { position, value } => (
                Ok(ParsedIdentifierV { position, value }),
                pos + 1,
            ),
            t => (Err(ParseErrorV::Mismatch(TokenKind::Identifier, t)), pos + 1),
        }
    }
}

/// What parsing a value node yields: the token's text with exactly one
/// leading and one trailing quote character stripped. Only meaningful on
/// well-formed lexer output (see `wf_tokens`), where the quotes are present.
pub open spec fn spec_value_node(toks: Seq<TokenV>, pos: int) -> (Result<
    ParsedValueV,
    ParseErrorV,
>, int) {
    if pos >= toks.len() {
        (Err(ParseErrorV::Eof), pos + 1)
    } else {
        match toks[pos] {
            TokenV::Value { position, value } => (
                Ok(ParsedValueV { position, value: value.subrange(1, value.len() - 1) }),
                pos + 1,
            ),
            t => (Err(ParseErrorV::Mismatch(TokenKind::Value, t)), pos + 1),
        }
    }
}

/// What an explicit key/value attribute becomes once its value text has
/// been lower-cased: a boolean literal coerces to a boolean attribute — and
/// then the lower-cased value text, not the identifier, becomes the key —
/// and anything else stays a key/value attribute under the original key.
pub open spec fn spec_coerce(key: Seq<char>, lowered: Seq<char>, position: Span) -> AttributeV {
    if lowered == "true"@ {
        AttributeV::Boolean { key: lowered, set: true, position }
    } else if lowered == "false"@ {
        AttributeV::Boolean { key: lowered, set: false, position }
    } else {
        AttributeV::KeyValue { key, value: lowered, position }
    }
}

/// What parsing an attribute node yields. A bare identifier is a boolean
/// attribute that is set. An identifier followed by `=` and a value
/// delegates to the value rule, lower-cases the value text, and coerces as
/// `spec_coerce` says; the node's position covers the key and the value.
pub open spec fn spec_attribute_node(toks: Seq<TokenV>, pos: int) -> (Result<
    AttributeV,
    ParseErrorV,
>, int) {
    if pos >= toks.len() {
        (Err(ParseErrorV::Eof), pos + 1)
    } else {
        match toks[pos] {
            TokenV::Identifier { position, value: key } => {
                if pos + 1 < toks.len() && toks[pos + 1] is Equals {
                    let (vr, vp) = spec_value_node(toks, pos + 2);
                    match vr {
                        Ok(pv) => (
                            Ok(
                                spec_coerce(
                                    key,
                                    lower_of(pv.value),
                                    position.spec_merge(pv.position),
                                ),
                            ),
                            vp,
                        ),
                        Err(e) => (Err(e), vp),
                    }
                } else {
                    (Ok(AttributeV::Boolean { key, set: true, position }), pos + 1)
                }
            },
            t => (Err(ParseErrorV::Mismatch(TokenKind::Identifier, t)), pos + 1),
        }
    }
}

/// What parsing one node of the given shape yields, and where it leaves the
/// cursor.
pub open spec fn spec_parse_node(k: NodeKind, toks: Seq<TokenV>, pos: int) -> (Result<
    AstNodeV,
    ParseErrorV,
>, int) {
    match k {
        NodeKind::Identifier => {
            let (r, p) = spec_identifier_node(toks, pos);
            match r {
                Ok(n) => (Ok(AstNodeV::Identifier(n)), p),
                Err(e) => (Err(e), p),
            }
        },
        NodeKind::Value => {
            let (r, p) = spec_value_node(toks, pos);
            match r {
                Ok(n) => (Ok(AstNodeV::Value(n)), p),
                Err(e) => (Err(e), p),
            }
        },
        NodeKind::Attribute => {
            let (r, p) = spec_attribute_node(toks, pos);
            match r {
                Ok(n) => (Ok(AstNodeV::Attribute(n)), p),
                Err(e) => (Err(e), p),
            }
        },
    }
}

/// A node parse advances the cursor by at least one and at most
/// `node_max_advance` positions, match or mismatch alike.
pub proof fn lemma_node_advance_bounds(k: NodeKind, toks: Seq<TokenV>, pos: int)
    ensures
        pos + 1 <= spec_parse_node(k, toks, pos).1 <= pos + node_max_advance(k),
{
}

/// The view of a node parse's outcome.
pub open spec fn res_node_view(r: Result<AstNode, ParseError>) -> Result<AstNodeV, ParseErrorV> {
    match r {
        Ok(n) => Ok(n@),
        Err(e) => Err(e@),
    }
}

/// The capability of an AST node type to validate and construct itself from
/// the stream. On success an implementation consumes exactly the tokens the
/// node is built from; on failure it consumes whatever token it inspected to
/// find the mismatch and does not restore the cursor. Not restoring on
/// failure is a property of the whole design, shared by every
/// implementation.
pub trait Parseable {
    /// The node shape this implementation constructs.
    spec fn node_kind() -> NodeKind;

    /// Validates that the next logical unit is present and constructs the
    /// node, as `spec_parse_node` describes.
    fn try_parse(tokens: &mut ParseStream) -> (r: Result<AstNode, ParseError>)
        requires
            wf_tokens(old(tokens).toks()),
            old(tokens).pos() + node_max_advance(Self::node_kind()) <= usize::MAX,
        ensures
            final(tokens).toks() == old(tokens).toks(),
            final(tokens).pos() == spec_parse_node(
                Self::node_kind(),
                old(tokens).toks(),
                old(tokens).pos(),
            ).1,
            res_node_view(r) == spec_parse_node(
                Self::node_kind(),
                old(tokens).toks(),
                old(tokens).pos(),
            ).0,
    ;
}

impl Parseable for ParsedIdentifier {
    open spec fn node_kind() -> NodeKind {
        NodeKind::Identifier
    }

    fn try_parse(tokens: &mut ParseStream) -> (r: Result<AstNode, ParseError>) {
        match tokens.next() {
            Some(Token::Identifier { position, value }) => Ok(
                AstNode::Identifier(ParsedIdentifier { position, value }),
            ),
            Some(other) => Err(ParseError::Mismatch(TokenKind::Identifier, other)),
            None => Err(ParseError::Eof),
        }
    }
}

impl Parseable for ParsedValue {
    open spec fn node_kind() -> NodeKind {
        NodeKind::Value
    }

    fn try_parse(tokens: &mut ParseStream) -> (r: Result<AstNode, ParseError>) {
        match tokens.next() {
            Some(Token::Value { position, value }) => {
                proof {
                    assert(crate::token::wf_token(old(tokens).toks()[old(tokens).pos()]));
                }
                let len: usize = value.as_str().unicode_len();
                let inner = value.as_str().substring_char(1, len - 1);
                Ok(AstNode::Value(ParsedValue { position, value: inner.to_owned() }))
            },
            Some(other) => Err(ParseError::Mismatch(TokenKind::Value, other)),
            None => Err(ParseError::Eof),
        }
    }
}

impl Attribute {
    /// Builds the attribute for an explicit key/value pair whose value text
    /// has already been lower-cased, exactly as `spec_coerce` says: a
    /// boolean literal becomes a boolean attribute keyed by that literal
    /// text; anything else stays a key/value attribute under the given key.
    pub fn coerce(key: String, lowered: String, position: Span) -> (r: Attribute)
        ensures
            r@ == spec_coerce(key@, lowered@, position),
    {
        if lowered == "true".to_owned() {
            Attribute::Boolean { key: lowered, set: true, position }
        } else if lowered == "false".to_owned() {
            Attribute::Boolean { key: lowered, set: false, position }
        } else {
            Attribute::KeyValue { key, value: lowered, position }
        }
    }
}

impl Parseable for Attribute {
    open spec fn node_kind() -> NodeKind {
        NodeKind::Attribute
    }

    fn try_parse(tokens: &mut ParseStream) -> (r: Result<AstNode, ParseError>) {
        let next = match tokens.next() {
            Some(t) => t,
            None => {
                return Err(ParseError::Eof);
            },
        };
        let (position, key) = match next {
            Token::Identifier { position, value } => (position, value),
            other => {
                return Err(ParseError::Mismatch(TokenKind::Identifier, other));
            },
        };
        let has_equals = match tokens.peek() {
            Some(Token::Equals { .. }) => true,
            _ => false,
        };
        if !has_equals {
            return Ok(AstNode::Attribute(Attribute::Boolean { key, set: true, position }));
        }
        tokens.next();
        let parsed = match ParsedValue::try_parse(tokens) {
            Ok(node) => node,
            Err(e) => {
                return Err(e);
            },
        };
        match parsed {
            AstNode::Value(ParsedValue { position: end, value }) => {
                let lowered = lowercase(value.as_str());
                let merged = position.merge(&end);
                Ok(AstNode::Attribute(Attribute::coerce(key, lowered, merged)))
            },
            _ => vstd::pervasive::unreached(),
        }
    }
}

} // verus!
