//! A model of the Polkadot primitives that a session and a candidate are
//! described by, and the decision logic of a node that backs any candidate
//! whose proof of validity carries a chosen marker.
//!
//! - [`v1`] and [`v2`]: session descriptions and the candidate types.
//! - [`node_primitives`]: proofs of validity and validation outcomes.
//! - [`messages`]: the requests a candidate-validation subsystem receives.
//! - [`receipt_cache`]: a map from candidate descriptors to receipts.
//! - [`back_garbage_candidate`]: the interception rules.

pub mod v1;
pub mod v2;
pub mod receipt_cache;
pub mod node_primitives;
pub mod messages;
pub mod back_garbage_candidate;
