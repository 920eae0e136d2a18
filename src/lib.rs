//! The lexical-error taxonomy of a compiler front end: every way source text
//! can fail to become a token stream, with the positions a diagnostic needs.
pub mod delimiter;
pub mod error;
pub mod kind;
pub mod order;
pub mod span;

pub use delimiter::{ClosingDelimiter, OpeningDelimiter};
pub use error::LexError;
pub use kind::{LexErrorKind, LexErrorTag};
pub use span::{Ident, Span, Spanned};
