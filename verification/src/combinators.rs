use crate::ast::{
    node_max_advance, spec_parse_node, Attribute, AstNode, AstNodeV, NodeKind, Parseable,
    ParsedIdentifier, ParsedValue,
};
use crate::parse_stream::ParseStream;
use crate::token::{wf_tokens, Token, TokenKind, TokenV};
use vstd::prelude::*;

verus! {

/// The two ways a parse can fail: a token was present but had the wrong
/// kind, or a token was required and the stream was exhausted.
#[derive(Debug, Clone, PartialEq)]
pub enum ParseError {
    Mismatch(TokenKind, Token),
    Eof,
}

/// The mathematical shape of `ParseError`.
pub enum ParseErrorV {
    Mismatch(TokenKind, TokenV),
    Eof,
}

impl View for ParseError {
    type V = ParseErrorV;

    open spec fn view(&self) -> ParseErrorV {
        match self {
            ParseError::Mismatch(k, t) => ParseErrorV::Mismatch(*k, t@),
            ParseError::Eof => ParseErrorV::Eof,
        }
    }
}

/// A composable matcher over a `ParseStream`: consume a token without
/// yielding, consume tokens and yield a node, or run two matchers left to
/// right. Built once, immutable, and reusable across parses.
#[derive(Debug)]
pub enum Combinator {
    /// Consumes one token of the given kind and yields nothing.
    Consumer { token: TokenKind },
    /// Consumes tokens through a `Parseable` implementation and yields the
    /// one node it constructs.
    Yielder { parser: NodeKind },
    /// Chains two combinators together, left first.
    Sequence { left: Box<Combinator>, right: Box<Combinator> },
}

/// The view of a combinator parse's outcome.
pub open spec fn res_nodes_view(r: Result<Vec<AstNode>, ParseError>) -> Result<
    Seq<AstNodeV>,
    ParseErrorV,
> {
    match r {
        Ok(nodes) => Ok(nodes.deep_view()),
        Err(e) => Err(e@),
    }
}

impl Combinator {
    /// How far this combinator can advance the cursor, at most.
    pub open spec fn max_advance(self) -> nat
        decreases self,
    {
        match self {
            Combinator::Consumer { .. } => 1,
            Combinator::Yielder { parser } => node_max_advance(parser),
            Combinator::Sequence { left, right } => left.max_advance() + right.max_advance(),
        }
    }

    /// What running this combinator over `toks` at cursor `pos` yields —
    /// the ordered node list, or the first failure — and where it leaves
    /// the cursor. A consumer consumes its token whether or not it matched;
    /// a sequence stops at the first failure and rolls nothing back.
    pub open spec fn spec_try_parse(self, toks: Seq<TokenV>, pos: int) -> (Result<
        Seq<AstNodeV>,
        ParseErrorV,
    >, int)
        decreases self,
    {
        match self {
            Combinator::Consumer { token } => {
                if pos >= toks.len() {
                    (Err(ParseErrorV::Eof), pos + 1)
                } else if toks[pos].kind() == token {
                    (Ok(Seq::empty()), pos + 1)
                } else {
                    (Err(ParseErrorV::Mismatch(token, toks[pos])), pos + 1)
                }
            },
            Combinator::Yielder { parser } => {
                let (r, p) = spec_parse_node(parser, toks, pos);
                match r {
                    Ok(n) => (Ok(seq![n]), p),
                    Err(e) => (Err(e), p),
                }
            },
            Combinator::Sequence { left, right } => {
                let (lr, lp) = left.spec_try_parse(toks, pos);
                match lr {
                    Ok(ln) => {
                        let (rr, rp) = right.spec_try_parse(toks, lp);
                        match rr {
                            Ok(rn) => (Ok(ln + rn), rp),
                            Err(e) => (Err(e), rp),
                        }
                    },
                    Err(e) => (Err(e), lp),
                }
            },
        }
    }

    /// Runs this combinator once, left to right, over the stream: the
    /// ordered list of yielded nodes, or the first failure. Failed or
    /// partially-run matchers leave every token they consumed consumed; no
    /// position is ever restored.
    pub fn try_parse(&self, tokens: &mut ParseStream) -> (r: Result<Vec<AstNode>, ParseError>)
        requires
            wf_tokens(old(tokens).toks()),
            old(tokens).pos() + self.max_advance() <= usize::MAX,
        ensures
            final(tokens).toks() == old(tokens).toks(),
            final(tokens).pos() == self.spec_try_parse(
                old(tokens).toks(),
                old(tokens).pos(),
            ).1,
            res_nodes_view(r) == self.spec_try_parse(old(tokens).toks(), old(tokens).pos()).0,
        decreases *self,
    {
        match self {
            Combinator::Consumer { token } => {
                match tokens.next() {
                    Some(next) => {
                        if token.matches(&next) {
                            let nodes: Vec<AstNode> = Vec::new();
                            proof {
                                assert(nodes.deep_view() =~= Seq::<AstNodeV>::empty());
                            }
                            Ok(nodes)
                        } else {
                            Err(ParseError::Mismatch(*token, next))
                        }
                    },
                    None => Err(ParseError::Eof),
                }
            },
            Combinator::Yielder { parser } => {
                let result = match parser {
                    NodeKind::Identifier => ParsedIdentifier::try_parse(tokens),
                    NodeKind::Value => ParsedValue::try_parse(tokens),
                    NodeKind::Attribute => Attribute::try_parse(tokens),
                };
                match result {
                    Ok(node) => {
                        let mut nodes: Vec<AstNode> = Vec::new();
                        nodes.push(node);
                        proof {
                            assert(nodes.deep_view() =~= seq![node@]);
                        }
                        Ok(nodes)
                    },
                    Err(e) => Err(e),
                }
            },
            Combinator::Sequence { left, right } => {
                proof {
                    lemma_advance_bounds(**left, old(tokens).toks(), old(tokens).pos());
                }
                let mut first_result = match left.try_parse(tokens) {
                    Ok(nodes) => nodes,
                    Err(e) => {
                        return Err(e);
                    },
                };
                let mut second_result = match right.try_parse(tokens) {
                    Ok(nodes) => nodes,
                    Err(e) => {
                        return Err(e);
                    },
                };
                first_result.append(&mut second_result);
                proof {
                    assert(first_result.deep_view() =~= self.spec_try_parse(
                        old(tokens).toks(),
                        old(tokens).pos(),
                    ).0->Ok_0);
                }
                Ok(first_result)
            },
        }
    }

    /// Chains two combinators: `self` runs first, then `rhs`, as in the
    /// original left-to-right chaining operator.
    pub fn shr(self, rhs: Combinator) -> (r: Combinator)
        ensures
            r == (Combinator::Sequence { left: Box::new(self), right: Box::new(rhs) }),
    {
        Combinator::Sequence { left: Box::new(self), right: Box::new(rhs) }
    }

    /// A consumer of one `<` token.
    pub fn langle() -> (r: Combinator)
        ensures
            r == (Combinator::Consumer { token: TokenKind::LAngle }),
    {
        Combinator::Consumer { token: TokenKind::LAngle }
    }

    /// A consumer of one `>` token.
    pub fn rangle() -> (r: Combinator)
        ensures
            r == (Combinator::Consumer { token: TokenKind::RAngle }),
    {
        Combinator::Consumer { token: TokenKind::RAngle }
    }

    /// A consumer of one `=` token.
    pub fn equals() -> (r: Combinator)
        ensures
            r == (Combinator::Consumer { token: TokenKind::Equals }),
    {
        Combinator::Consumer { token: TokenKind::Equals }
    }

    /// A consumer of one `/` token.
    pub fn slash() -> (r: Combinator)
        ensures
            r == (Combinator::Consumer { token: TokenKind::Slash }),
    {
        Combinator::Consumer { token: TokenKind::Slash }
    }

    /// A yielder of one identifier node.
    pub fn identifier() -> (r: Combinator)
        ensures
            r == (Combinator::Yielder { parser: NodeKind::Identifier }),
    {
        Combinator::Yielder { parser: NodeKind::Identifier }
    }

    /// A yielder of one value node.
    pub fn value() -> (r: Combinator)
        ensures
            r == (Combinator::Yielder { parser: NodeKind::Value }),
    {
        Combinator::Yielder { parser: NodeKind::Value }
    }

    /// A yielder of one attribute node.
    pub fn attribute() -> (r: Combinator)
        ensures
            r == (Combinator::Yielder { parser: NodeKind::Attribute }),
    {
        Combinator::Yielder { parser: NodeKind::Attribute }
    }
}

/// Consumer correctness: on a stream whose next token is present, a
/// consumer of kind `k` succeeds with an empty node list exactly when the
/// token's tag is `k`, and otherwise fails with a mismatch carrying `k` and
/// that token. The token is consumed either way.
pub proof fn lemma_consumer_correct(k: TokenKind, toks: Seq<TokenV>, pos: int)
    requires
        0 <= pos < toks.len(),
    ensures
        ({
            let (r, p) = (Combinator::Consumer { token: k }).spec_try_parse(toks, pos);
            &&& p == pos + 1
            &&& toks[pos].kind() == k ==> r == Ok::<Seq<AstNodeV>, ParseErrorV>(
                Seq::<AstNodeV>::empty(),
            )
            &&& toks[pos].kind() != k ==> r == Err::<Seq<AstNodeV>, ParseErrorV>(
                ParseErrorV::Mismatch(k, toks[pos]),
            )
        }),
{
}

/// Exhaustion precedence: any combinator run with the cursor at or past the
/// end of the token sequence fails with `Eof`, never with a mismatch.
pub proof fn lemma_exhaustion_precedence(c: Combinator, toks: Seq<TokenV>, pos: int)
    requires
        pos >= toks.len(),
    ensures
        c.spec_try_parse(toks, pos).0 == Err::<Seq<AstNodeV>, ParseErrorV>(ParseErrorV::Eof),
    decreases c,
{
    match c {
        Combinator::Consumer { .. } => {},
        Combinator::Yielder { .. } => {},
        Combinator::Sequence { left, .. } => {
            lemma_exhaustion_precedence(*left, toks, pos);
        },
    }
}

/// Sequence associativity: whenever the left-grouped chain of three
/// combinators succeeds over a sequence and cursor, the right-grouped chain
/// over the same sequence and cursor yields the same ordered node list and
/// leaves the cursor at the same place.
pub proof fn lemma_sequence_associative(
    a: Combinator,
    b: Combinator,
    c: Combinator,
    toks: Seq<TokenV>,
    pos: int,
)
    ensures
        ({
            let grouped_left = (Combinator::Sequence {
                left: Box::new(
                    Combinator::Sequence { left: Box::new(a), right: Box::new(b) },
                ),
                right: Box::new(c),
            }).spec_try_parse(toks, pos);
            let grouped_right = (Combinator::Sequence {
                left: Box::new(a),
                right: Box::new(
                    Combinator::Sequence { left: Box::new(b), right: Box::new(c) },
                ),
            }).spec_try_parse(toks, pos);
            grouped_left.0 matches Ok(nodes) ==> {
                &&& grouped_right.0 == Ok::<Seq<AstNodeV>, ParseErrorV>(nodes)
                &&& grouped_right.1 == grouped_left.1
            }
        }),
{
    reveal_with_fuel(Combinator::spec_try_parse, 3);
    let (ra, pa) = a.spec_try_parse(toks, pos);
    match ra {
        Ok(na) => {
            let (rb, pb) = b.spec_try_parse(toks, pa);
            match rb {
                Ok(nb) => {
                    let (rc, pc) = c.spec_try_parse(toks, pb);
                    match rc {
                        Ok(nc) => {
                            assert((na + nb) + nc =~= na + (nb + nc));
                        },
                        Err(_) => {},
                    }
                },
                Err(_) => {},
            }
        },
        Err(_) => {},
    }
}

/// A combinator advances the cursor by at least one and at most
/// `max_advance` positions, success and failure alike.
pub proof fn lemma_advance_bounds(c: Combinator, toks: Seq<TokenV>, pos: int)
    ensures
        pos + 1 <= c.spec_try_parse(toks, pos).1 <= pos + c.max_advance(),
    decreases c,
{
    match c {
        Combinator::Consumer { .. } => {},
        Combinator::Yielder { parser } => {
            crate::ast::lemma_node_advance_bounds(parser, toks, pos);
        },
        Combinator::Sequence { left, right } => {
            lemma_advance_bounds(*left, toks, pos);
            let lp = left.spec_try_parse(toks, pos).1;
            lemma_advance_bounds(*right, toks, lp);
        },
    }
}

} // verus!

