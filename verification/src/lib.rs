//! Front-end core of a small expression language: the static type model,
//! the syntax tree arena, and a formatter that reconstructs styled source
//! text from a tree.

pub mod ast;
pub mod text;
pub mod typings;
