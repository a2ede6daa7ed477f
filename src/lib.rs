//! Compiler-style rendering of diagnostics located in a Hurl source text: a
//! header, an optional location line, the source line with a line-number
//! gutter, and either carets under the offending columns or a suggested fix.

pub mod layout;
pub mod report;
pub mod style;
pub mod logger;
pub mod laws;
