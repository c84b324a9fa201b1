//! Orchestration layer for threshold-ECDSA signing on a blockchain subnet.
//!
//! A subnet produces ECDSA signatures collectively: a threshold key is created
//! once through interactive distributed key generation, presignature material
//! (quadruples of transcripts) is assembled ahead of demand, and per-request
//! signature shares are combined when enough of them exist.  This crate holds
//! the deterministic, pool-driven protocol logic of that layer: reading the
//! chain tip, deciding which artifacts to contribute or validate each round,
//! assembling quadruples, handling complaints against faulty dealers, and
//! parsing the bootstrap key record.  Every function carries a contract that
//! pins its behaviour down, and the contracts are machine-checked.

pub mod block_reader;
pub mod bootstrap;
pub mod complaints;
pub mod csp;
pub mod ids;
pub mod messages;
pub mod payload;
pub mod pool;
pub mod pre_signer;
pub mod quadruple;
pub mod sig_inputs;
pub mod signer;
pub mod support;
pub mod text;
pub mod transcript;
pub mod transcript_builder;
