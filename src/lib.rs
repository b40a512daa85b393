//! A custom scan provider for a relational query engine: it proposes a
//! custom access path when a relation is restricted by the recognized
//! search operator, compiles the chosen path into a scan plan node, and
//! drives the scan state through its execution lifecycle.
pub mod node;
pub mod path;
pub mod hook;
pub mod plan;
pub mod scan;
