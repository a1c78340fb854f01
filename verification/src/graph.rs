//! A forest of nodes in which every node owns its children and looks up its
//! parent without owning it.
//!
//! Owning references are counted per node. A node lives while its count is
//! positive; when it reaches zero the node is reclaimed and gives up the
//! references it held to its children, which may fall in turn. The link from
//! a child to its parent is a plain identifier that is checked against the
//! graph whenever it is followed, so it keeps nothing alive.

pub mod arena;
pub mod cascade;
pub mod preservation;
pub mod laws;
pub mod model;

pub use arena::{NodeGraph, NodeRef};
pub use model::AttachError;
