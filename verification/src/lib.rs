//! The grammar of element tags and attributes in view templates.
//!
//! A template names each node by an element tag and decorates it with
//! attributes. This crate turns the tokens of a tag or of an attribute into a
//! typed node: [`ElementTag`] or [`AttributeType`]. The tokens come from a
//! [`TokenCursor`], of which the crate holds two: [`BufferCursor`], over tokens
//! in memory, and [`StreamCursor`], over a parse stream of `syn`.
//!
//! Every function is verified against a model of the unread tokens as a
//! sequence of [`Lexeme`]s; the module `grammar` defines, over that model, what
//! each parser returns.

pub mod token;
pub mod cursor;
pub mod buffer;
pub mod stream;
pub mod node;
pub mod policy;
pub mod grammar;
pub mod parser;
pub mod laws;

pub use buffer::BufferCursor;
pub use cursor::TokenCursor;
pub use node::{AttributeType, ElementTag, ParseError};
pub use parser::AttributeName;
pub use policy::{BooleanAttributes, BooleanPolicy};
pub use stream::StreamCursor;
pub use token::{Lexeme, Shape, Token};
