//! Witness-generation core for a zero-knowledge rollup.
//!
//! The library maintains a fixed-depth Merkle tree of accounts (each account
//! holding a nested per-token balance tree), executes layer-2 operations
//! against it, and produces for every operation the witness a proving circuit
//! needs: before/after leaf contents, Merkle audit paths, and a fixed-width
//! public-data fragment. A block-level accumulator stitches the per-operation
//! witnesses into one circuit instance while tracking the root-hash timeline,
//! so the result can be cross-checked against the canonical state executor.

pub mod bytes;
pub mod hash;
pub mod merkle;
pub mod account;
pub mod tree;
pub mod ops;
pub mod state;
pub mod plasma;
pub mod witness;
pub mod circuit;
pub mod builder;
pub mod laws;
pub mod mempool;
pub mod error;
pub mod tokens;
pub mod fee;
pub mod eth;
pub mod wallet;
