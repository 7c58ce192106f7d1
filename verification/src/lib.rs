//! An introspectable model of a modular runtime's metadata: pallets with
//! their storage items, calls, constants, and the event and error variants
//! keyed to each pallet's numeric index, together with deterministic
//! text rendering of the whole structure.
//!
//! The registry is built once by [`registry::Metadata::new`], which validates
//! the naming and indexing invariants, and is read-only afterwards: lookups
//! and renders are pure.

pub mod registry;
pub mod render;
pub mod text;
pub mod types;
