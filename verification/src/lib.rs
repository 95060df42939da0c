//! A first-in-first-out queue kept as a singly linked chain of nodes.
//!
//! The nodes live in a growable arena and are linked by integer handles, so
//! that the queue can remember its last node and append in constant time
//! while every node keeps exactly one owner. All operations are verified
//! against a mathematical sequence of the stored elements.

pub mod laws;
pub mod model;
pub mod queue;

pub use queue::List;
