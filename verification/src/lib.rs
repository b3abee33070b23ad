//! Fixed-layout post records for an append-only record store.
//!
//! Each record ("tweet") carries an author identity, a creation timestamp,
//! a topic and a content text. Records are write-once: they are created by
//! validating untrusted field values and writing them into a pre-allocated
//! storage slot, and are never mutated afterwards.
//!
//! The [`layout`] module budgets the fixed byte capacity such a slot must
//! reserve; the [`record`] module validates field values against the declared
//! character limits and initializes a fresh slot.

pub mod layout;
pub mod record;
