//! A minimal append-only ledger: blocks of opaque payload chained by SHA-256,
//! optionally mined under a leading-zero target and optionally signed with
//! ECDSA over P-256.
//!
//! Every executable function carries a contract over the mathematical views
//! defined here. The cryptographic primitives themselves are called from the
//! `sha2`, `p256` and `hex` crates behind small wrappers whose contracts are
//! assumed, and named as such where they stand.
//!
//! The library does no input or output: a chain is a `Vec<Block>` and a key
//! is read from bytes, so the caller decides where both are kept. Nothing
//! here guards a stored chain against two writers at once.

pub mod block;
pub mod chain;
mod clock;
pub mod decimal;
pub mod hashing;
pub mod hex_codec;
pub mod keys;
pub mod signing;

pub use crate::block::{meets_difficulty, Block, BuildError};
pub use crate::chain::{
    add_block, add_block_at, next_prev_hash, validate_chain, validate_signatures, ChainError,
    SignatureStatus,
};
pub use crate::hashing::digest;
pub use crate::keys::{
    generate_keys, load_private_key, load_public_key, Keypair, SigningKey, VerifyingKey,
};
