//! Verified core of the AMD SEV-SNP attestation toolkit: the journal format that
//! the zkVM verifier programs commit to, the prover configuration rules, and the
//! decisions of the SEV-SNP attestation flows.

pub mod bytes;
pub mod stub;
pub mod text;
pub mod polling;
pub mod config;
pub mod snp;
pub mod cli;
pub mod zkprover_cli;
pub mod prover;
pub mod onchain;
pub mod contract;
pub mod codec;
