//! Keeps track of a single current goal: a text and an optional deadline,
//! stored as a small TOML document with one `[goal]` section.

pub mod document;
pub mod editing;
pub mod error;
pub mod text;
pub mod record;
pub mod store;
pub mod toml_items;
