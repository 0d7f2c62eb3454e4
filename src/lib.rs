//! Detection of redundant `format!` invocations on an already-expanded tree.
//!
//! `classify` looks at one expression of the expanded program and reports the
//! expansions of `format!("literal")` and of `format!("{}", s)` with `s` a string,
//! together with the `.to_string()` call that can take their place.
pub mod source_map;
pub mod hir;
pub mod matcher;
pub mod classify;
pub mod laws;
