//! A typed publish/subscribe node: the builder of a node, the error kinds,
//! the map of listening tasks kept per subscriber, the decisions of one
//! listening task, how the results of a join are folded, and how a publish
//! ends.
pub mod builder;
pub mod error;
pub mod join;
pub mod listener;
pub mod publish;
pub mod registry;
