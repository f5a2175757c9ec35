//! Persistent (immutable, structurally shared) collections: a singly-linked
//! list and, built on it, a FIFO queue with amortized constant-time operations.
//!
//! Every operation that looks like a mutation returns a new value; existing
//! values are never altered, and unchanged storage is shared between versions.

pub mod list;
pub mod queue;
