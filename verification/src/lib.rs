//! A minimal recursive-descent parsing toolkit: a cursor over a lexed token
//! sequence, a small algebra of composable matchers, and the AST nodes they
//! build. The lexer itself is an external collaborator; this crate starts
//! from its token sequence.

pub mod ast;
pub mod combinators;
pub mod parse_stream;
pub mod span;
pub mod token;

pub use ast::AstNode;
pub use ast::Attribute;
pub use ast::Parseable;
pub use ast::ParsedIdentifier;
pub use ast::ParsedValue;
pub use combinators::Combinator;
pub use combinators::ParseError;
pub use parse_stream::ParseStream;
pub use span::Span;
pub use token::Token;
pub use token::TokenKind;
