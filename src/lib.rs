//! Planning of the `IntoValue` / `IntoDict` derives for typst dictionaries.
//!
//! The derives turn each named field of a struct into one dictionary entry.
//! This crate holds the part of that work that decides things: which inputs
//! are accepted, the key of every field (a per-field `rename`, a global
//! `rename` naming one of heck's case conventions, or the field name itself),
//! and the order of the entries. Reading the syntax tree and emitting tokens
//! is left to the macro front end.

pub mod ident;
pub mod model;
pub mod gather;

pub use ident::is_ident;
pub use gather::gather_input;
pub use model::{DeriveError, DeriveItem, Entry, FieldInput, Gathered, ItemData, Key, RenameArg, StructFields};
