//! Content-addressed handle derivation over opaque encrypted values, and the
//! event-sourced request protocol that composes derivations into multi-step
//! computation graphs.
//!
//! Callers never touch plaintext or ciphertext: every encrypted value is named
//! by a fixed 32-byte [`types::Handle`]. Requesting an operation derives the
//! result's handle deterministically from a domain tag, the issuing
//! authority's namespace, the operation's pinned discriminant and the ordered
//! operand handles, and appends one immutable record to an append-only log.
//! An off-chain executor replays the same derivation to correlate requests
//! with the results it publishes.

pub mod events;
pub mod handle;
pub mod requests;
pub mod types;
pub mod workflow;
