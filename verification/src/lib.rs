//! Client-side core of the SanctumAI vault protocol: length-prefixed
//! framing, response handling, the Ed25519 challenge-response flow and the
//! vault's error vocabulary, each with a machine-checked contract.

pub mod outside;
pub mod error;
pub mod text;
pub mod protocol;
pub mod types;
pub mod client;
pub mod auth;
