//! A lint rule for source comments: every `TODO` line comment has to name who
//! or what it belongs to, as `TODO(@username)` or `TODO(#issue)`.
//!
//! The rule reads the comments of one parsed file and reports each untagged
//! `TODO`. What it reports is stated over mathematical models of the comments
//! and proved for every input.

pub mod comment;
pub mod diagnostic;
pub mod rules;
pub mod tag;
pub mod text;
