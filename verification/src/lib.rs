//! A primer of small, verified building blocks.
//!
//! The two that carry an invariant worth the name are `graph`, a forest of
//! nodes with counted owning references and parent links that own nothing,
//! and `tracker`, a value with a limit that sends a notice whenever it is
//! set. The others are short exercises on collections, text, comparison and
//! module layout, each with the contract it keeps.

pub mod averaged;
pub mod graph;
pub mod guess;
pub mod largest;
pub mod my_box;
pub mod points;
pub mod rectangle;
pub mod restaurant;
pub mod shoes;
pub mod summary;
pub mod text;
pub mod tracker;
