//! Settlement engine for a confidential prediction market.
//!
//! One market runs through a linear lifecycle (`Active` →
//! `AwaitingAttestation` → `Computing` → `Resolved`) while three engines act
//! on its public aggregate state: a constant-function market maker whose
//! reserves only grow, a periodic batch auction cleared at one uniform price,
//! and a quorum-weighted resolution vote.  Computations over private inputs
//! (order sizes, attestation votes) run on an external confidential-compute
//! collaborator; this crate holds the public algebra of those computations,
//! the lifecycle gating, and the queue/callback protocol that applies each
//! computation result exactly once.

pub mod batch;
pub mod cfmm;
pub mod constants;
pub mod errors;
pub mod events;
pub mod gateway;
pub mod market;
pub mod resolution;
pub mod state;
pub mod sums;
