//! Client-side pipeline for initializing an AMM configuration account:
//! configuration loading, key material, program-derived-address computation,
//! instruction building, transaction assembly and signing, and a bounded
//! retry policy for submission.
pub mod address;
pub mod config;
pub mod errors;
pub mod ini;
pub mod instruction;
pub mod keys;
pub mod pipeline;
pub mod submit;
pub mod transaction;
