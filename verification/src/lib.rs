//! PrSM front end: tokens, lexer, parser and syntax tree; the project configuration of a
//! `.prsmproject` file and the project it describes; and what the language server computes
//! from them.
pub mod token;
pub mod ast;
pub mod text;
pub mod lexical;
pub mod lexer;
pub mod parser;
pub mod project;
pub mod project_graph;
pub mod lsp;
