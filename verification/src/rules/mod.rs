//! The rules.

pub mod ban_untagged_todo;
