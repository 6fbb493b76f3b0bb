//! Ingestion and ranking core of an interactive fuzzy finder: a concurrent
//! item pool with a reserved/header partition and monotonic claiming, the
//! collector protocol that drains an item stream into a staging buffer, and
//! the multi-criteria rank construction used to order matched candidates.

pub mod item;
pub mod pool;
pub mod reader;
