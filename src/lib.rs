//! Derivation of a deterministic secret seed bound to a TPM attestation key
//! and to a confidential workload's launch configuration.

pub mod crypto;
pub mod templates;
pub mod provision;
pub mod tpm;
pub mod provider;
pub mod initdata;
pub mod fifo;
pub mod session;
