//! A stateless instruction-assembly and signing library for an ed25519-based
//! ledger: it validates textual key material, derives and generates signing
//! keypairs, signs byte messages, and assembles the binary instruction
//! payloads (program id, ordered account list, data bytes) that the ledger's
//! token and system programs decode positionally.

pub mod address;
pub mod error;
pub mod instruction;
pub mod service;
pub mod signing;
