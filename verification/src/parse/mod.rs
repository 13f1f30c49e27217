pub mod diagnostic;
pub mod error;
pub mod grammar;
pub mod ident;
pub mod lex;
pub mod protocol;
pub mod source;
pub mod span;
pub mod stream;
pub mod text;
pub mod token;

pub use diagnostic::{Diagnostic, Label, LabelStyle, ParseError, Severity};
pub use error::Error;
pub use grammar::{classify, TokenStart};
pub use ident::Ident;
pub use lex::Lexer;
pub use protocol::Parse;
pub use source::{File, SourceId, SourceMap, SourceMapView};
pub use span::Span;
pub use stream::{TokenStream, TokenStreamView};
pub use token::{Token, TokenKind, TokenKindView, TokenView};
