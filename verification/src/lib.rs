//! Schema-to-codec compiler for a tagged-union wire format.
//!
//! Given a declarative description of a sum type (an [`schema::EnumSchema`]),
//! the library validates it, computes a deterministic discriminant assignment
//! for each variant, and derives a symmetric pair of encode/decode contracts
//! for a compact binary wire format: a container of two positional slots, an
//! unsigned 32-bit tag followed by a positionally encoded payload.
//!
//! Discriminant expressions are kept symbolic: the resolver composes them by
//! "+1" chaining and never evaluates them; evaluation is deferred to the
//! point where a contract is realized against a host environment.

pub mod contract;
pub mod decode;
pub mod encode;
pub mod expr;
pub mod pipeline;
pub mod resolve;
pub mod roundtrip;
pub mod schema;
pub mod validate;
