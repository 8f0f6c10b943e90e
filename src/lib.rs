pub mod span;
pub mod parser;
pub mod lexical;
pub mod diagnostic;
pub mod expr;
pub mod ty;
pub mod ty_laws;
