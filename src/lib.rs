//! Build-time compiler for a small HTML template language: a parser from
//! template text to a `Template`, a code generator that lowers a `Template` to
//! a Rust rendering function, and the state of one level of the generated
//! module tree.
pub mod lexical;
pub mod types;
pub mod template;
pub mod grammar;
pub mod text;
pub mod engine;
pub mod laws;

pub use engine::{template_name, write_rust, Engine, RenderEngine};
pub use grammar::template;
pub use template::{Template, TemplateExpression};
pub use types::{ErrorKind, ParseError};
