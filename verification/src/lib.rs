//! Challenge-response proof of key possession with replay protection.
//!
//! A verifier hands out single-use, time-bounded challenges. A prover signs a
//! message, attaches the challenge it was given, and submits the result. The
//! verifier accepts a proof only when the challenge is known, unused and inside
//! its window, and the Ed25519 signature holds for the submitted key and
//! message.

pub mod clock;
pub mod decision;
pub mod history;
pub mod keys;
pub mod laws;
pub mod model;
pub mod outcome;
pub mod payload;
pub mod prover;
pub mod service;
pub mod signature;
pub mod store;
pub mod token;

pub use keys::KeyPair;
pub use model::{NonceEntry, StoreState};
pub use outcome::{NonceRejection, Outcome, Reply, VerifyError};
pub use payload::{Payload, PayloadView};
pub use store::NonceStore;
