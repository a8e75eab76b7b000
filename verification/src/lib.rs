//! Tooling around a compiler's output: fixes an editor can offer for a
//! diagnostic, and the pages of a documentation site.

pub mod docs;
pub mod module;
pub mod payload;
pub mod protocol;
pub mod quickfix;
pub mod text;
pub mod views;
