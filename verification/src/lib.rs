//! A fail-closed reference-validation layer.
//!
//! A caller submits a transaction naming opaque resource handles; nothing about
//! those handles can be trusted.  This library converts such a bag of
//! caller-supplied references into strongly-typed, validated views before any
//! business logic runs: capability assertions (signer, owner, type tag,
//! program identity), a typed view decoder over tagged byte payloads, an
//! overflow-safe arithmetic discipline for fields reached through those views,
//! a cross-program invocation gate, and an atomic instruction dispatch
//! pipeline that commits all payload mutations as a unit or none at all.

pub mod arith;
pub mod assertions;
pub mod codec;
pub mod cpi;
pub mod errors;
pub mod ops;
pub mod pipeline;
pub mod handle;
pub mod records;
