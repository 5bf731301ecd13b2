//! Route-tree resolution: the per-attempt context, the tree of nodes, and
//! the standalone pattern guard.

pub mod ctx;
pub mod node;
pub mod pattern_guard;
